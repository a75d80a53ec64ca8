use cornhacks24_game::interrogation::{Animation, Direction, Movement, Rgb, Room};

fn names(room: &Room) -> Vec<String> {
    room.suspects.iter().map(|s| s.name.clone()).collect()
}

#[test]
fn launch_places_the_cast() {
    let room = Room::launch();
    assert_eq!(names(&room), vec!["Clyde", "Glinda", "Harry"]);
    assert_eq!(room.suspects[0].color, Rgb { r: 255, g: 0, b: 0 });
    assert_eq!(room.suspects[1].color, Rgb { r: 0, g: 255, b: 0 });
    assert_eq!(room.suspects[2].color, Rgb { r: 0, g: 0, b: 255 });
    assert_eq!(room.away, vec![true, true, true]);
    assert_eq!(room.present, vec![false, false, false]);
    assert_eq!(room.seated(), None);
}

#[test]
fn cast_is_three_different_people() {
    let n = names(&Room::launch());
    assert_eq!(n.len(), 3);
    assert!(n[0] != n[1] && n[0] != n[2] && n[1] != n[2]);
}

#[test]
fn send_forth_finds_the_named_suspect() {
    let room = Room::launch();
    assert_eq!(room.send_forth("Glinda"), vec![Movement::SendForth(1)]);
    assert_eq!(room.send_forth("Harry"), vec![Movement::SendForth(2)]);
    assert!(room.send_forth("Nobody").is_empty());
    assert!(room.send_forth("glinda").is_empty());
}

#[test]
fn send_forth_skips_suspects_not_away() {
    let mut room = Room::launch();
    room.away[0] = false;
    assert!(room.send_forth("Clyde").is_empty());
}

#[test]
fn summoned_suspect_takes_the_chair() {
    let mut room = Room::launch();
    let moves = room.send_forth("Clyde");
    assert!(room.can_handle(&moves));
    let walks = room.handle_movements(&moves);
    assert_eq!(walks, vec![Animation { suspect: 0, direction: Direction::IntoChair }]);
    assert_eq!(room.present, vec![true, false, false]);
    assert_eq!(room.away, vec![true, true, true]);
    assert_eq!(room.seated(), Some(0));
}

#[test]
fn send_back_empties_the_chair() {
    let mut room = Room::launch();
    let moves = room.send_forth("Harry");
    room.handle_movements(&moves);
    let back = vec![Movement::SendBackActive];
    assert!(room.can_handle(&back));
    let walks = room.handle_movements(&back);
    assert_eq!(walks, vec![Animation { suspect: 2, direction: Direction::BackThroughDoor }]);
    assert_eq!(room.present, vec![false, false, false]);
}

#[test]
fn swap_in_one_batch_seats_the_new_suspect_alone() {
    let mut room = Room::launch();
    room.handle_movements(&vec![Movement::SendForth(0)]);
    let walks = room.handle_movements(&vec![Movement::SendBackActive, Movement::SendForth(1)]);
    assert_eq!(
        walks,
        vec![
            Animation { suspect: 0, direction: Direction::BackThroughDoor },
            Animation { suspect: 1, direction: Direction::IntoChair },
        ]
    );
    assert_eq!(room.present, vec![false, true, false]);
    assert!(room.exactly_one_seated());
}

#[test]
fn send_back_uses_the_suspect_seated_when_the_batch_began() {
    let mut room = Room::launch();
    room.handle_movements(&vec![Movement::SendForth(2)]);
    let walks = room.handle_movements(&vec![Movement::SendForth(0), Movement::SendBackActive]);
    assert_eq!(walks[1], Animation { suspect: 2, direction: Direction::BackThroughDoor });
    assert_eq!(room.present, vec![true, false, false]);
}

#[test]
fn batches_that_cannot_be_handled() {
    let room = Room::launch();
    assert!(!room.can_handle(&vec![Movement::SendBackActive]));
    assert!(!room.can_handle(&vec![Movement::SendForth(3)]));
    assert!(room.can_handle(&vec![]));
    let mut two = Room::launch();
    two.handle_movements(&vec![Movement::SendForth(0), Movement::SendForth(1)]);
    assert!(!two.exactly_one_seated());
    assert!(!two.can_handle(&vec![Movement::SendBackActive]));
    assert!(two.can_handle(&vec![Movement::SendForth(2)]));
}
