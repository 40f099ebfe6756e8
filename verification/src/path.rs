//! Outlines of paths: the points, tags and contours that a rasterizer of
//! outlines takes, traced from the commands of a path.

use vstd::prelude::*;

verus! {

/// A point of an outline.
#[derive(Clone, Copy, Debug, PartialEq, Eq, Structural)]
pub struct Vector {
    pub x: i64,
    pub y: i64,
}

/// One command of a path.
#[derive(Clone, Copy, Debug, PartialEq, Eq, Structural)]
pub enum PathCommand {
    /// Lifts the pen and puts it down at the point.
    MoveTo(Vector),
    /// Ends the contour that is being drawn.
    ClosePath,
    /// Draws a line from where the pen is to the point.
    LineTo(Vector),
}

/// The tag of a point that lies on the curve.
pub const ON_CURVE: u8 = 1;

/// The outline of a path. `points` and `tags` go together, one tag for each
/// point; each entry of `contours` is the index of the last point of a
/// contour. The arrays have room for every point and contour that the
/// commands may give; entries past those that were given are zero.
#[derive(Debug, PartialEq, Eq)]
pub struct PathPicture {
    pub points: Vec<Vector>,
    pub tags: Vec<u8>,
    pub contours: Vec<i16>,
}

/// Number of points that room is made for on account of `command`.
pub open spec fn points_for(command: PathCommand) -> nat {
    match command {
        PathCommand::MoveTo(_) => 0,
        PathCommand::ClosePath => 1,
        PathCommand::LineTo(_) => 2,
    }
}

/// Number of contours that room is made for on account of `command`.
pub open spec fn contours_for(command: PathCommand) -> nat {
    match command {
        PathCommand::MoveTo(_) => 0,
        PathCommand::ClosePath => 1,
        PathCommand::LineTo(_) => 1,
    }
}

/// Number of points that room is made for on account of the first `count`
/// of the commands.
pub open spec fn point_room(commands: Seq<PathCommand>, count: nat) -> nat
    decreases count,
{
    if count == 0 {
        0
    } else {
        point_room(commands, (count - 1) as nat) + points_for(commands[count - 1])
    }
}

/// Number of contours that room is made for on account of the first `count`
/// of the commands.
pub open spec fn contour_room(commands: Seq<PathCommand>, count: nat) -> nat
    decreases count,
{
    if count == 0 {
        0
    } else {
        contour_room(commands, (count - 1) as nat) + contours_for(commands[count - 1])
    }
}

/// An outline while it is traced.
pub struct Tracing {
    /// The points, given and not yet given.
    pub points: Seq<Vector>,
    /// The tags, one for each point.
    pub tags: Seq<u8>,
    /// The contours, given and not yet given.
    pub contours: Seq<i16>,
    /// Number of points given so far.
    pub point_count: int,
    /// Number of contours given so far.
    pub contour_count: int,
    /// Whether the command before drew a line.
    pub in_contour: bool,
    /// Where the pen is.
    pub pen: Vector,
}

impl Tracing {
    /// The tracing before the first command: nothing is given yet, and the
    /// pen is at the origin.
    pub open spec fn start(point_room: nat, contour_room: nat) -> Tracing {
        Tracing {
            points: Seq::new(point_room, |i: int| Vector { x: 0, y: 0 }),
            tags: Seq::new(point_room, |i: int| 0u8),
            contours: Seq::new(contour_room, |i: int| 0i16),
            point_count: 0,
            contour_count: 0,
            in_contour: false,
            pen: Vector { x: 0, y: 0 },
        }
    }

    /// The tracing with one more point, on the curve.
    pub open spec fn with_point(self, point: Vector) -> Tracing {
        Tracing {
            points: self.points.update(self.point_count, point),
            tags: self.tags.update(self.point_count, ON_CURVE),
            point_count: self.point_count + 1,
            ..self
        }
    }

    /// The tracing with one more contour, which ends at the point `last`.
    pub open spec fn with_contour(self, last: int) -> Tracing {
        Tracing {
            contours: self.contours.update(self.contour_count, last as i16),
            contour_count: self.contour_count + 1,
            ..self
        }
    }

    /// Whether `command` gives a contour: a line always does, the others do
    /// where the command before drew a line.
    pub open spec fn gives_contour(self, command: PathCommand) -> bool {
        command is LineTo || self.in_contour
    }

    /// The tracing after one more command.
    ///
    /// A move ends a contour at the point given last, where the command
    /// before drew a line, and takes the pen to its point. A close, where the
    /// command before drew a line, gives the point where the pen is and ends
    /// a contour there. A line gives the point where the pen is, unless the
    /// command before drew a line too; then it gives its own point, ends a
    /// contour there, and leaves the pen there.
    pub open spec fn draw(self, command: PathCommand) -> Tracing {
        match command {
            PathCommand::MoveTo(point) => {
                let ended = if self.in_contour {
                    self.with_contour(self.point_count - 1)
                } else {
                    self
                };
                Tracing { in_contour: false, pen: point, ..ended }
            },
            PathCommand::ClosePath => {
                let ended = if self.in_contour {
                    self.with_point(self.pen).with_contour(self.point_count)
                } else {
                    self
                };
                Tracing { in_contour: false, ..ended }
            },
            PathCommand::LineTo(point) => {
                let begun = if self.in_contour {
                    self
                } else {
                    self.with_point(self.pen)
                };
                let drawn = begun.with_point(point).with_contour(begun.point_count);
                Tracing { in_contour: true, pen: point, ..drawn }
            },
        }
    }
}

/// The tracing after the first `count` of the commands, with room for all of
/// them.
pub open spec fn trace(commands: Seq<PathCommand>, count: nat) -> Tracing
    decreases count,
{
    if count == 0 {
        Tracing::start(point_room(commands, commands.len()), contour_room(commands, commands.len()))
    } else {
        trace(commands, (count - 1) as nat).draw(commands[count - 1])
    }
}

/// Whether the commands can be traced: the indices of the points can be
/// counted in sixteen bits, there is room for each contour when it is given,
/// and the last command does not leave a contour open.
pub open spec fn can_bake(commands: Seq<PathCommand>) -> bool {
    &&& point_room(commands, commands.len()) <= i16::MAX
    &&& room_up_to(commands, commands.len())
    &&& !trace(commands, commands.len()).in_contour
}

/// Room grows with the number of commands.
pub proof fn lemma_room_grows(commands: Seq<PathCommand>, fewer: nat, more: nat)
    requires
        fewer <= more,
    ensures
        point_room(commands, fewer) <= point_room(commands, more),
        contour_room(commands, fewer) <= contour_room(commands, more),
        contour_room(commands, more) <= point_room(commands, more),
    decreases more,
{
    if more > 0 {
        if fewer < more {
            lemma_room_grows(commands, fewer, (more - 1) as nat);
        } else {
            lemma_room_grows(commands, (fewer - 1) as nat, (more - 1) as nat);
        }
    }
}

/// Whether there is room for each contour that the first `count` of the
/// commands give, when it is given.
pub open spec fn room_up_to(commands: Seq<PathCommand>, count: nat) -> bool {
    forall|i: int|
        0 <= i < count && (#[trigger] trace(commands, i as nat)).gives_contour(commands[i])
            ==> trace(commands, i as nat).contour_count < contour_room(commands, commands.len())
}

/// While an outline is traced and there is room for its contours, the arrays
/// keep their sizes, there is room for every point given, the points given
/// are on the curve and the others are untouched, and a contour is open only
/// after a point was given.
pub proof fn lemma_trace(commands: Seq<PathCommand>, count: nat)
    requires
        count <= commands.len(),
        room_up_to(commands, count),
    ensures
        ({
            let tracing = trace(commands, count);
            &&& tracing.points.len() == point_room(commands, commands.len())
            &&& tracing.tags.len() == point_room(commands, commands.len())
            &&& tracing.contours.len() == contour_room(commands, commands.len())
            &&& 0 <= tracing.point_count <= point_room(commands, count)
            &&& 0 <= tracing.contour_count
            &&& tracing.in_contour ==> tracing.point_count >= 1
            &&& forall|i: int| 0 <= i < tracing.point_count ==> tracing.tags[i] == ON_CURVE
            &&& forall|i: int|
                tracing.point_count <= i < tracing.tags.len() ==> tracing.tags[i] == 0
        }),
    decreases count,
{
    if count > 0 {
        lemma_trace(commands, (count - 1) as nat);
        lemma_room_grows(commands, count, commands.len());
        let before = trace(commands, (count - 1) as nat);
        assert(before.gives_contour(commands[count - 1]) ==> before.contour_count
            < contour_room(commands, commands.len()));
    }
}

/// Room for the points and contours of the commands: for each close, a point
/// and a contour; for each line, two points and a contour. There is none to
/// be had where the points cannot be counted in sixteen bits.
fn room(commands: &[PathCommand]) -> (room: Option<(usize, usize)>)
    ensures
        room is Some <==> point_room(commands@, commands@.len()) <= i16::MAX,
        room matches Some((points, contours)) ==> points == point_room(
            commands@,
            commands@.len(),
        ) && contours == contour_room(commands@, commands@.len()),
{
    let mut num_points: usize = 0;
    let mut num_contours: usize = 0;
    let mut i: usize = 0;
    while i < commands.len()
        invariant
            i <= commands@.len(),
            num_points <= i16::MAX,
            num_points == point_room(commands@, i as nat),
            num_contours == contour_room(commands@, i as nat),
        decreases commands@.len() - i,
    {
        proof {
            lemma_room_grows(commands@, (i + 1) as nat, commands@.len());
            lemma_room_grows(commands@, i as nat, i as nat);
        }
        match commands[i] {
            PathCommand::MoveTo(_) => {},
            PathCommand::ClosePath => {
                num_points += 1;
                num_contours += 1;
            },
            PathCommand::LineTo(_) => {
                num_points += 2;
                num_contours += 1;
            },
        }
        if num_points > 0x7fff {
            return None;
        }
        i += 1;
    }
    Some((num_points, num_contours))
}

/// Traces the outline of a path from its commands, where they can be traced.
pub fn try_bake(commands: &[PathCommand]) -> (picture: Option<PathPicture>)
    ensures
        picture is Some <==> can_bake(commands@),
        picture matches Some(picture) ==> {
            &&& picture.points@ == trace(commands@, commands@.len()).points
            &&& picture.tags@ == trace(commands@, commands@.len()).tags
            &&& picture.contours@ == trace(commands@, commands@.len()).contours
            &&& picture.points@.len() == point_room(commands@, commands@.len())
            &&& picture.tags@.len() == point_room(commands@, commands@.len())
            &&& picture.contours@.len() == contour_room(commands@, commands@.len())
        },
{
    let (num_points, num_contours) = match room(commands) {
        Some(room) => room,
        None => {
            return None;
        },
    };
    let mut points: Vec<Vector> = vec![Vector { x: 0, y: 0 }; num_points];
    let mut tags: Vec<u8> = vec![0u8; num_points];
    let mut contours: Vec<i16> = vec![0i16; num_contours];
    let mut np: usize = 0;
    let mut nc: usize = 0;
    let mut in_contour: bool = false;
    let mut cur = Vector { x: 0, y: 0 };
    proof {
        assert(points@ =~= trace(commands@, 0).points);
        assert(tags@ =~= trace(commands@, 0).tags);
        assert(contours@ =~= trace(commands@, 0).contours);
    }
    let mut i: usize = 0;
    while i < commands.len()
        invariant
            i <= commands@.len(),
            num_points == point_room(commands@, commands@.len()),
            num_contours == contour_room(commands@, commands@.len()),
            num_points <= i16::MAX,
            room_up_to(commands@, i as nat),
            points@ == trace(commands@, i as nat).points,
            tags@ == trace(commands@, i as nat).tags,
            contours@ == trace(commands@, i as nat).contours,
            np == trace(commands@, i as nat).point_count,
            nc == trace(commands@, i as nat).contour_count,
            in_contour == trace(commands@, i as nat).in_contour,
            cur == trace(commands@, i as nat).pen,
        decreases commands@.len() - i,
    {
        proof {
            lemma_trace(commands@, i as nat);
            lemma_room_grows(commands@, (i + 1) as nat, commands@.len());
        }
        let gives_contour: bool = match commands[i] {
            PathCommand::LineTo(_) => true,
            _ => in_contour,
        };
        if gives_contour && nc >= num_contours {
            return None;
        }
        proof {
            assert(room_up_to(commands@, (i + 1) as nat));
            lemma_trace(commands@, (i + 1) as nat);
        }
        match commands[i] {
            PathCommand::MoveTo(point) => {
                if in_contour {
                    contours[nc] = (np - 1) as i16;
                    nc += 1;
                }
                in_contour = false;
                cur = point;
            },
            PathCommand::ClosePath => {
                if in_contour {
                    points[np] = cur;
                    tags[np] = ON_CURVE;
                    contours[nc] = np as i16;
                    np += 1;
                    nc += 1;
                }
                in_contour = false;
            },
            PathCommand::LineTo(point) => {
                if !in_contour {
                    points[np] = cur;
                    tags[np] = ON_CURVE;
                    np += 1;
                }
                points[np] = point;
                tags[np] = ON_CURVE;
                contours[nc] = np as i16;
                np += 1;
                nc += 1;
                in_contour = true;
                cur = point;
            },
        }
        i += 1;
    }
    if in_contour {
        return None;
    }
    proof {
        lemma_trace(commands@, commands@.len());
    }
    Some(PathPicture { points, tags, contours })
}

/// Traces the outline of a path from its commands.
pub fn bake(commands: &[PathCommand]) -> (picture: PathPicture)
    requires
        can_bake(commands@),
    ensures
        picture.points@ == trace(commands@, commands@.len()).points,
        picture.tags@ == trace(commands@, commands@.len()).tags,
        picture.contours@ == trace(commands@, commands@.len()).contours,
        picture.points@.len() == point_room(commands@, commands@.len()),
        picture.tags@.len() == point_room(commands@, commands@.len()),
        picture.contours@.len() == contour_room(commands@, commands@.len()),
{
    try_bake(commands).unwrap()
}

} // verus!
