use vertex_staging::path::{bake, try_bake, PathCommand, PathPicture, Vector, ON_CURVE};

fn at(x: i64, y: i64) -> Vector {
    Vector { x, y }
}

#[test]
fn a_triangle() {
    let commands = [
        PathCommand::MoveTo(at(0, 0)),
        PathCommand::LineTo(at(10, 0)),
        PathCommand::LineTo(at(10, 10)),
        PathCommand::ClosePath,
    ];
    let picture = bake(&commands);
    assert_eq!(
        picture,
        PathPicture {
            points: vec![at(0, 0), at(10, 0), at(10, 10), at(10, 10), at(0, 0)],
            tags: vec![ON_CURVE, ON_CURVE, ON_CURVE, ON_CURVE, 0],
            contours: vec![1, 2, 3],
        }
    );
    assert_eq!(try_bake(&commands), Some(picture));
}

#[test]
fn no_commands_give_an_empty_outline() {
    let picture = bake(&[]);
    assert_eq!(picture, PathPicture { points: vec![], tags: vec![], contours: vec![] });
}

#[test]
fn a_close_without_a_line_leaves_room_unused() {
    let commands = [
        PathCommand::ClosePath,
        PathCommand::MoveTo(at(3, 4)),
        PathCommand::LineTo(at(5, 6)),
        PathCommand::MoveTo(at(7, 8)),
    ];
    let picture = bake(&commands);
    assert_eq!(
        picture,
        PathPicture {
            points: vec![at(3, 4), at(5, 6), at(0, 0)],
            tags: vec![1, 1, 0],
            contours: vec![1, 1],
        }
    );
}

#[test]
fn an_open_contour_cannot_be_traced() {
    assert_eq!(try_bake(&[PathCommand::MoveTo(at(0, 0)), PathCommand::LineTo(at(1, 1))]), None);
    assert_eq!(try_bake(&[PathCommand::LineTo(at(1, 1))]), None);
}

#[test]
fn a_move_needs_room_for_the_contour_it_ends() {
    let commands = [
        PathCommand::MoveTo(at(0, 0)),
        PathCommand::LineTo(at(1, 1)),
        PathCommand::MoveTo(at(2, 2)),
    ];
    assert_eq!(try_bake(&commands), None);
    let mut longer = commands.to_vec();
    longer.push(PathCommand::ClosePath);
    assert_eq!(
        try_bake(&longer),
        Some(PathPicture {
            points: vec![at(0, 0), at(1, 1), at(0, 0)],
            tags: vec![1, 1, 0],
            contours: vec![1, 1],
        })
    );
}

#[test]
fn points_are_counted_in_sixteen_bits() {
    let mut commands = vec![PathCommand::LineTo(at(1, 1)); 16383];
    commands.push(PathCommand::ClosePath);
    let picture = try_bake(&commands).unwrap();
    assert_eq!(picture.points.len(), 32767);
    assert_eq!(picture.contours.len(), 16384);
    assert_eq!(picture.contours[16382], 16383);
    assert_eq!(picture.contours[16383], 16384);
    assert_eq!(picture.tags[16384], 1);
    assert_eq!(picture.tags[16385], 0);
    let mut too_many = vec![PathCommand::LineTo(at(1, 1)); 16384];
    too_many.push(PathCommand::MoveTo(at(0, 0)));
    assert_eq!(try_bake(&too_many), None);
}
