use wine_lounge::world::{BoxAreaContent, BoxAreaPosition, Command, Direction};

#[test]
fn should_deserialize_command_line() {
    assert_eq!(
        Command::SpawnPlayer("1234".to_string(), 100, 200),
        Command::from_text("Spawn 1234 100 200").unwrap()
    );
    assert_eq!(
        Command::RemovePlayer("1234".to_string()),
        Command::from_text("Remove 1234").unwrap()
    );
    assert_eq!(
        Command::FacePlayer("1234".to_string(), Direction::Left),
        Command::from_text("Face 1234 Left").unwrap()
    );
    assert_eq!(
        Command::MovePlayer("1234".to_string(), Direction::Up),
        Command::from_text("Move 1234 Up").unwrap()
    );
    assert_eq!(
        Command::StopPlayer("1234".to_string()),
        Command::from_text("Stop 1234").unwrap()
    );
    assert_eq!(
        Command::UpdateBoxArea(BoxAreaPosition::RightBottom, BoxAreaContent::HiddenBox),
        Command::from_text("UpdateBoxArea RightBottom HiddenBox").unwrap()
    );
}

#[test]
fn should_serialize_command_line() {
    assert_eq!(
        Command::SpawnPlayer("1234".to_string(), 100, 200).to_text(),
        "Spawn 1234 100 200"
    );
    assert_eq!(Command::RemovePlayer("1234".to_string()).to_text(), "Remove 1234");
    assert_eq!(
        Command::FacePlayer("1234".to_string(), Direction::Left).to_text(),
        "Face 1234 Left"
    );
    assert_eq!(
        Command::MovePlayer("1234".to_string(), Direction::Up).to_text(),
        "Move 1234 Up"
    );
    assert_eq!(Command::StopPlayer("1234".to_string()).to_text(), "Stop 1234");
    assert_eq!(
        Command::UpdateBoxArea(BoxAreaPosition::RightBottom, BoxAreaContent::HiddenBox).to_text(),
        "UpdateBoxArea RightBottom HiddenBox"
    );
}

#[test]
fn commands_round_trip_through_text() {
    let commands = vec![
        Command::SpawnPlayer("p1".to_string(), 0, 4294967295),
        Command::RemovePlayer("someone".to_string()),
        Command::FacePlayer("x".to_string(), Direction::Right),
        Command::MovePlayer("x".to_string(), Direction::Down),
        Command::StopPlayer("x".to_string()),
        Command::UpdateBoxArea(BoxAreaPosition::LeftTop, BoxAreaContent::EmptyBottle),
    ];
    for c in commands {
        let line = c.to_text();
        assert_eq!(Command::from_text(line.as_str()).unwrap(), c);
    }
}

#[test]
fn malformed_command_lines_are_rejected() {
    assert!(Command::from_text("").is_err());
    assert!(Command::from_text("Bogus 1234").is_err());
    assert!(Command::from_text("Move 1234").is_err());
    assert!(Command::from_text("Move 1234 Diagonal").is_err());
    assert!(Command::from_text("Spawn 1234 12x 200").is_err());
    assert!(Command::from_text("Spawn 1234 100").is_err());
    // one past u32::MAX
    assert!(Command::from_text("Spawn 1234 4294967296 5").is_err());
    assert!(Command::from_text("Stop").is_err());
    assert!(Command::from_text("UpdateBoxArea MiddleTop HiddenBox").is_err());
    assert!(Command::from_text("UpdateBoxArea RightTop FullCrate").is_err());
}

#[test]
fn extra_words_are_ignored() {
    assert_eq!(
        Command::StopPlayer("1234".to_string()),
        Command::from_text("Stop 1234 tail").unwrap()
    );
}

#[test]
fn direction_words_round_trip() {
    for d in [Direction::Up, Direction::Down, Direction::Left, Direction::Right] {
        assert_eq!(Direction::from_text(d.to_text()).unwrap(), d);
    }
    assert!(Direction::from_text("up").is_err());
    assert_eq!(Direction::Up.to_text(), "Up");
    assert_eq!(Direction::Down.to_text(), "Down");
    assert_eq!(Direction::Left.to_text(), "Left");
    assert_eq!(Direction::Right.to_text(), "Right");
}

#[test]
fn position_words_round_trip() {
    for p in [
        BoxAreaPosition::RightTop,
        BoxAreaPosition::RightBottom,
        BoxAreaPosition::LeftBottom,
        BoxAreaPosition::LeftTop,
    ] {
        assert_eq!(BoxAreaPosition::from_text(p.to_text()).unwrap(), p);
    }
    assert!(BoxAreaPosition::from_text("Center").is_err());
}

#[test]
fn content_words_round_trip() {
    for c in [
        BoxAreaContent::Nothing,
        BoxAreaContent::HiddenBox,
        BoxAreaContent::EmptyGlass,
        BoxAreaContent::FilledBottle,
        BoxAreaContent::EmptyBottle,
    ] {
        assert_eq!(BoxAreaContent::from_text(c.to_text()).unwrap(), c);
    }
    assert!(BoxAreaContent::from_text("FullCrate").is_err());
}
