//! Path resolution: from two world positions to the next waypoint.
//!
//! Both positions are resolved to polygons, the engine is asked for the
//! corridor of polygons between them, and the corridor decides the waypoint.
//! The engine is not called from here: a search says which call it is
//! waiting for (`request`), and decides on the answer (`advance`).

use vstd::prelude::*;
use crate::error::{Error, ErrorView};
use crate::point::Point;
use crate::query::RecastQuery;

verus! {

/// A call that a search asks the host to make on the engine.
#[derive(Debug, Clone, Copy)]
pub enum Request {
    /// The polygon nearest to `center` within a box that reaches
    /// `half_extents` to each side of it, and the point on that polygon.
    FindNearestPoly { query: usize, center: Point, half_extents: Point },
    /// The corridor of polygons from `start_poly` to `end_poly`.
    FindPath { query: usize, start_poly: u32, end_poly: u32, start_pos: Point, end_pos: Point },
    /// The point on polygon `poly` that is closest to `pos`.
    FindClosestPoint { query: usize, pos: Point, poly: u32 },
}

/// What the engine gave back: its status, zero for a failure; what it
/// wrote into its result; and its diagnostic text.
#[derive(Debug)]
pub enum Reply {
    NearestPoly { status: i32, pos: Point, poly: u32, error: String },
    /// `path` is the corridor, from the start polygon to the end polygon.
    Path { status: i32, path: Vec<u32>, error: String },
    ClosestPoint { status: i32, pos: Point, error: String },
}

/// A `Reply` with its list and its text as sequences.
pub enum ReplyView {
    NearestPoly { status: i32, pos: Point, poly: u32, error: Seq<char> },
    Path { status: i32, path: Seq<u32>, error: Seq<char> },
    ClosestPoint { status: i32, pos: Point, error: Seq<char> },
}

impl View for Reply {
    type V = ReplyView;

    open spec fn view(&self) -> ReplyView {
        match self {
            Reply::NearestPoly { status, pos, poly, error } => ReplyView::NearestPoly {
                status: *status,
                pos: *pos,
                poly: *poly,
                error: error@,
            },
            Reply::Path { status, path, error } => ReplyView::Path {
                status: *status,
                path: path@,
                error: error@,
            },
            Reply::ClosestPoint { status, pos, error } => ReplyView::ClosestPoint {
                status: *status,
                pos: *pos,
                error: error@,
            },
        }
    }
}

/// A search in progress.
#[derive(Debug)]
pub enum PathSearch {
    /// Waiting for the polygon under the start position.
    ResolveStartPoly { query: usize, start: Point, end: Point, radius: u32 },
    /// Waiting for the polygon under the end position.
    ResolveEndPoly { query: usize, start_pos: Point, start_poly: u32, end: Point, radius: u32 },
    /// Waiting for the corridor between the two polygons.
    QueryCorridor { query: usize, start_pos: Point, start_poly: u32, end_pos: Point, end_poly: u32 },
    /// Waiting for the point on the corridor's second polygon that is
    /// closest to the start.
    ProjectOntoNext { query: usize, start_pos: Point, next_poly: u32 },
    /// The search is over.
    End(Result<Point, Error>),
}

/// A `PathSearch` with the text of a failure as a sequence.
pub enum PathSearchView {
    ResolveStartPoly { query: usize, start: Point, end: Point, radius: u32 },
    ResolveEndPoly { query: usize, start_pos: Point, start_poly: u32, end: Point, radius: u32 },
    QueryCorridor { query: usize, start_pos: Point, start_poly: u32, end_pos: Point, end_poly: u32 },
    ProjectOntoNext { query: usize, start_pos: Point, next_poly: u32 },
    End(Result<Point, ErrorView>),
}

impl View for PathSearch {
    type V = PathSearchView;

    open spec fn view(&self) -> PathSearchView {
        match self {
            PathSearch::ResolveStartPoly { query, start, end, radius } => PathSearchView::ResolveStartPoly {
                query: *query,
                start: *start,
                end: *end,
                radius: *radius,
            },
            PathSearch::ResolveEndPoly { query, start_pos, start_poly, end, radius } => PathSearchView::ResolveEndPoly {
                query: *query,
                start_pos: *start_pos,
                start_poly: *start_poly,
                end: *end,
                radius: *radius,
            },
            PathSearch::QueryCorridor { query, start_pos, start_poly, end_pos, end_poly } => PathSearchView::QueryCorridor {
                query: *query,
                start_pos: *start_pos,
                start_poly: *start_poly,
                end_pos: *end_pos,
                end_poly: *end_poly,
            },
            PathSearch::ProjectOntoNext { query, start_pos, next_poly } => PathSearchView::ProjectOntoNext {
                query: *query,
                start_pos: *start_pos,
                next_poly: *next_poly,
            },
            PathSearch::End(Ok(point)) => PathSearchView::End(Ok(*point)),
            PathSearch::End(Err(error)) => PathSearchView::End(Err(error@)),
        }
    }
}

/// The box that a position is looked up in: centred on it, and reaching
/// `radius` to each side on all three axes.
pub open spec fn nearest_poly_request(query: usize, center: Point, radius: u32) -> Request {
    Request::FindNearestPoly {
        query,
        center,
        half_extents: Point { x: radius, y: radius, z: radius },
    }
}

/// What a nearest-polygon answer means: a failure with the engine's text
/// where the call failed; a failure of this library's own where the call
/// succeeded and named polygon zero, which stands for no polygon; and else
/// the point on the polygon, with the polygon.
pub open spec fn resolved_poly(status: i32, pos: Point, poly: u32, error: Seq<char>) -> Result<
    (Point, u32),
    ErrorView,
> {
    if status == 0 {
        Err(ErrorView::FindPointError(error))
    } else if poly == 0 {
        Err(ErrorView::FindPointError("No poly found"@))
    } else {
        Ok((pos, poly))
    }
}

/// What a closest-point answer means: a failure with the engine's text
/// where the call failed, and else the point.
pub open spec fn resolved_point(status: i32, pos: Point, error: Seq<char>) -> Result<Point, ErrorView> {
    if status == 0 {
        Err(ErrorView::FindPointError(error))
    } else {
        Ok(pos)
    }
}

/// What a corridor means for a search that holds the resolved start and
/// end: a failure with the engine's text where the call failed; a failure
/// where the corridor is empty; the end position where the corridor is one
/// polygon, which both positions then share; and else the projection of the
/// start onto the corridor's second polygon, still to be asked for.
pub open spec fn resolved_corridor(
    query: usize,
    start_pos: Point,
    end_pos: Point,
    status: i32,
    path: Seq<u32>,
    error: Seq<char>,
) -> PathSearchView {
    if status == 0 {
        PathSearchView::End(Err(ErrorView::FindPathError(error)))
    } else if path.len() == 0 {
        PathSearchView::End(Err(ErrorView::FindPathError("No Path"@)))
    } else if path.len() == 1 {
        PathSearchView::End(Ok(end_pos))
    } else {
        PathSearchView::ProjectOntoNext { query, start_pos, next_poly: path[1] }
    }
}

/// The state a search starts in.
pub open spec fn path_start(query: usize, start: Point, end: Point, radius: u32) -> PathSearchView {
    PathSearchView::ResolveStartPoly { query, start, end, radius }
}

/// The call that `state` is waiting for, if it is waiting for one.
pub open spec fn path_request(state: PathSearchView) -> Option<Request> {
    match state {
        PathSearchView::ResolveStartPoly { query, start, end, radius } => Some(
            nearest_poly_request(query, start, radius),
        ),
        PathSearchView::ResolveEndPoly { query, start_pos, start_poly, end, radius } => Some(
            nearest_poly_request(query, end, radius),
        ),
        PathSearchView::QueryCorridor { query, start_pos, start_poly, end_pos, end_poly } => Some(
            Request::FindPath { query, start_poly, end_poly, start_pos, end_pos },
        ),
        PathSearchView::ProjectOntoNext { query, start_pos, next_poly } => Some(
            Request::FindClosestPoint { query, pos: start_pos, poly: next_poly },
        ),
        PathSearchView::End(_) => None,
    }
}

/// The state that follows `state` on `reply`. An answer to another call
/// than the one that `state` is waiting for ends the search with a failure;
/// a search that is over stays as it is.
pub open spec fn path_step(state: PathSearchView, reply: ReplyView) -> PathSearchView {
    match state {
        PathSearchView::ResolveStartPoly { query, start, end, radius } => match reply {
            ReplyView::NearestPoly { status, pos, poly, error } => match resolved_poly(status, pos, poly, error) {
                Ok((start_pos, start_poly)) => PathSearchView::ResolveEndPoly {
                    query,
                    start_pos,
                    start_poly,
                    end,
                    radius,
                },
                Err(e) => PathSearchView::End(Err(e)),
            },
            _ => PathSearchView::End(Err(ErrorView::FindPointError("Unexpected reply"@))),
        },
        PathSearchView::ResolveEndPoly { query, start_pos, start_poly, end, radius } => match reply {
            ReplyView::NearestPoly { status, pos, poly, error } => match resolved_poly(status, pos, poly, error) {
                Ok((end_pos, end_poly)) => PathSearchView::QueryCorridor {
                    query,
                    start_pos,
                    start_poly,
                    end_pos,
                    end_poly,
                },
                Err(e) => PathSearchView::End(Err(e)),
            },
            _ => PathSearchView::End(Err(ErrorView::FindPointError("Unexpected reply"@))),
        },
        PathSearchView::QueryCorridor { query, start_pos, start_poly, end_pos, end_poly } => match reply {
            ReplyView::Path { status, path, error } => resolved_corridor(
                query,
                start_pos,
                end_pos,
                status,
                path,
                error,
            ),
            _ => PathSearchView::End(Err(ErrorView::FindPathError("Unexpected reply"@))),
        },
        PathSearchView::ProjectOntoNext { query, start_pos, next_poly } => match reply {
            ReplyView::ClosestPoint { status, pos, error } => PathSearchView::End(
                resolved_point(status, pos, error),
            ),
            _ => PathSearchView::End(Err(ErrorView::FindPointError("Unexpected reply"@))),
        },
        PathSearchView::End(result) => PathSearchView::End(result),
    }
}

/// Decides on a nearest-polygon answer; see `resolved_poly`.
pub fn find_poly(status: i32, pos: Point, poly: u32, error: String) -> (r: Result<(Point, u32), Error>)
    ensures
        match resolved_poly(status, pos, poly, error@) {
            Ok(found) => r == Ok::<(Point, u32), Error>(found),
            Err(e) => r matches Err(err) && err@ == e,
        },
{
    if status == 0 {
        Err(Error::FindPointError(error))
    } else if poly == 0 {
        Err(Error::FindPointError("No poly found".to_string()))
    } else {
        Ok((pos, poly))
    }
}

/// Decides on a closest-point answer; see `resolved_point`.
pub fn find_closest(status: i32, pos: Point, error: String) -> (r: Result<Point, Error>)
    ensures
        match resolved_point(status, pos, error@) {
            Ok(point) => r == Ok::<Point, Error>(point),
            Err(e) => r matches Err(err) && err@ == e,
        },
{
    if status == 0 {
        Err(Error::FindPointError(error))
    } else {
        Ok(pos)
    }
}

impl RecastQuery {
    /// Starts the search for the next waypoint on the way from `start` to
    /// `end`. Each position is looked up within `r` of itself.
    pub fn find_path(&self, start: Point, end: Point, r: u32) -> (search: PathSearch)
        ensures
            search@ == path_start(self@, start, end, r),
    {
        PathSearch::ResolveStartPoly { query: self.handle(), start, end, radius: r }
    }
}

impl PathSearch {
    /// The call that the search is waiting for, or `None` when it is over.
    pub fn request(&self) -> (r: Option<Request>)
        ensures
            r == path_request(self@),
    {
        match self {
            PathSearch::ResolveStartPoly { query, start, end, radius } => Some(
                Request::FindNearestPoly {
                    query: *query,
                    center: *start,
                    half_extents: Point::splat(*radius),
                },
            ),
            PathSearch::ResolveEndPoly { query, start_pos, start_poly, end, radius } => Some(
                Request::FindNearestPoly {
                    query: *query,
                    center: *end,
                    half_extents: Point::splat(*radius),
                },
            ),
            PathSearch::QueryCorridor { query, start_pos, start_poly, end_pos, end_poly } => Some(
                Request::FindPath {
                    query: *query,
                    start_poly: *start_poly,
                    end_poly: *end_poly,
                    start_pos: *start_pos,
                    end_pos: *end_pos,
                },
            ),
            PathSearch::ProjectOntoNext { query, start_pos, next_poly } => Some(
                Request::FindClosestPoint { query: *query, pos: *start_pos, poly: *next_poly },
            ),
            PathSearch::End(_) => None,
        }
    }

    /// Takes the engine's answer and moves on; see `path_step`.
    pub fn advance(self, reply: Reply) -> (next: PathSearch)
        ensures
            next@ == path_step(self@, reply@),
    {
        match self {
            PathSearch::ResolveStartPoly { query, start, end, radius } => match reply {
                Reply::NearestPoly { status, pos, poly, error } => match find_poly(status, pos, poly, error) {
                    Ok((start_pos, start_poly)) => PathSearch::ResolveEndPoly {
                        query,
                        start_pos,
                        start_poly,
                        end,
                        radius,
                    },
                    Err(e) => PathSearch::End(Err(e)),
                },
                _ => PathSearch::End(Err(Error::FindPointError("Unexpected reply".to_string()))),
            },
            PathSearch::ResolveEndPoly { query, start_pos, start_poly, end, radius } => match reply {
                Reply::NearestPoly { status, pos, poly, error } => match find_poly(status, pos, poly, error) {
                    Ok((end_pos, end_poly)) => PathSearch::QueryCorridor {
                        query,
                        start_pos,
                        start_poly,
                        end_pos,
                        end_poly,
                    },
                    Err(e) => PathSearch::End(Err(e)),
                },
                _ => PathSearch::End(Err(Error::FindPointError("Unexpected reply".to_string()))),
            },
            PathSearch::QueryCorridor { query, start_pos, start_poly, end_pos, end_poly } => match reply {
                Reply::Path { status, path, error } => {
                    if status == 0 {
                        PathSearch::End(Err(Error::FindPathError(error)))
                    } else if path.len() == 0 {
                        PathSearch::End(Err(Error::FindPathError("No Path".to_string())))
                    } else if path.len() == 1 {
                        PathSearch::End(Ok(end_pos))
                    } else {
                        PathSearch::ProjectOntoNext { query, start_pos, next_poly: path[1] }
                    }
                },
                _ => PathSearch::End(Err(Error::FindPathError("Unexpected reply".to_string()))),
            },
            PathSearch::ProjectOntoNext { query, start_pos, next_poly } => match reply {
                Reply::ClosestPoint { status, pos, error } => PathSearch::End(
                    find_closest(status, pos, error),
                ),
                _ => PathSearch::End(Err(Error::FindPointError("Unexpected reply".to_string()))),
            },
            PathSearch::End(result) => PathSearch::End(result),
        }
    }

    /// The outcome, once the search is over.
    pub fn result(self) -> (r: Option<Result<Point, Error>>)
        ensures
            match self@ {
                PathSearchView::End(Ok(point)) => r == Some(Ok::<Point, Error>(point)),
                PathSearchView::End(Err(error)) => r matches Some(Err(e)) && e@ == error,
                _ => r is None,
            },
    {
        match self {
            PathSearch::End(result) => Some(result),
            _ => None,
        }
    }
}

/// The state of a search after both positions were resolved and the engine
/// answered the corridor call.
pub open spec fn after_corridor(
    query: usize,
    start: Point,
    end: Point,
    radius: u32,
    from: ReplyView,
    to: ReplyView,
    corridor: ReplyView,
) -> PathSearchView {
    path_step(path_step(path_step(path_start(query, start, end, radius), from), to), corridor)
}

/// Whether `reply` resolves a position: a nearest-polygon answer from a call
/// that succeeded, naming a polygon.
pub open spec fn resolves(reply: ReplyView) -> bool {
    reply matches ReplyView::NearestPoly { status, poly, .. } && status != 0 && poly != 0
}

/// Start and end within one polygon: where the corridor is that polygon
/// alone, the waypoint is the point that the end position was resolved to,
/// not the one of the start.
pub proof fn lemma_same_polygon_returns_end(
    query: usize,
    start: Point,
    end: Point,
    radius: u32,
    from: ReplyView,
    to: ReplyView,
    status: i32,
    path: Seq<u32>,
    error: Seq<char>,
)
    requires
        resolves(from),
        resolves(to),
        status != 0,
        path.len() == 1,
    ensures
        after_corridor(query, start, end, radius, from, to, ReplyView::Path { status, path, error })
            == PathSearchView::End(Ok(to->NearestPoly_pos)),
{
}

/// An empty corridor fails the search with a path error, though both
/// positions were resolved and the corridor call itself succeeded.
pub proof fn lemma_empty_corridor_fails(
    query: usize,
    start: Point,
    end: Point,
    radius: u32,
    from: ReplyView,
    to: ReplyView,
    status: i32,
    path: Seq<u32>,
    error: Seq<char>,
)
    requires
        resolves(from),
        resolves(to),
        status != 0,
        path.len() == 0,
    ensures
        after_corridor(query, start, end, radius, from, to, ReplyView::Path { status, path, error })
            == PathSearchView::End(Err(ErrorView::FindPathError("No Path"@))),
{
}

/// A corridor of two polygons or more: the search asks for the point on the
/// corridor's second polygon that is closest to the point that the start was
/// resolved to, and that point is the waypoint.
pub proof fn lemma_corridor_projects_onto_second(
    query: usize,
    start: Point,
    end: Point,
    radius: u32,
    from: ReplyView,
    to: ReplyView,
    status: i32,
    path: Seq<u32>,
    error: Seq<char>,
    closest: ReplyView,
)
    requires
        resolves(from),
        resolves(to),
        status != 0,
        path.len() >= 2,
        closest matches ReplyView::ClosestPoint { status, .. } && status != 0,
    ensures
        path_request(
            after_corridor(query, start, end, radius, from, to, ReplyView::Path { status, path, error }),
        ) == Some(Request::FindClosestPoint { query, pos: from->NearestPoly_pos, poly: path[1] }),
        path_step(
            after_corridor(query, start, end, radius, from, to, ReplyView::Path { status, path, error }),
            closest,
        ) == PathSearchView::End(Ok(closest->ClosestPoint_pos)),
{
}

/// Every failure is final: once a search is over, no answer changes its
/// outcome.
pub proof fn lemma_end_is_final(result: Result<Point, ErrorView>, reply: ReplyView)
    ensures
        path_step(PathSearchView::End(result), reply) == PathSearchView::End(result),
{
}

/// A search is over after four answers at most, whatever they are.
pub proof fn lemma_search_ends(
    query: usize,
    start: Point,
    end: Point,
    radius: u32,
    first: ReplyView,
    second: ReplyView,
    third: ReplyView,
    fourth: ReplyView,
)
    ensures
        path_step(after_corridor(query, start, end, radius, first, second, third), fourth) is End,
{
}

} // verus!
