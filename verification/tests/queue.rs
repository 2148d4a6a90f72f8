use music_player::command::PlayerCommand;
use music_player::queue::CommandQueue;

#[test]
fn capacity_one_drops_the_overflow() {
    let mut q = CommandQueue::new(1);
    assert!(q.try_send(PlayerCommand::Play));
    // The queue is full: the second command is silently dropped.
    assert!(!q.try_send(PlayerCommand::Pause));
    assert!(matches!(q.recv(), Some(PlayerCommand::Play)));
    assert!(q.recv().is_none());
}

#[test]
fn at_most_two_commands_in_flight_with_capacity_one() {
    // One command being processed, one waiting: a third never fits.
    let mut q = CommandQueue::new(1);
    assert!(q.try_send(PlayerCommand::Next));
    let in_flight = q.recv().unwrap();
    assert!(matches!(in_flight, PlayerCommand::Next));
    assert!(q.try_send(PlayerCommand::Previous));
    assert!(!q.try_send(PlayerCommand::Stop));
    assert_eq!(q.len(), 1);
}

#[test]
fn accepted_commands_keep_arrival_order() {
    let mut q = CommandQueue::new(3);
    assert!(q.try_send(PlayerCommand::Play));
    assert!(q.try_send(PlayerCommand::Next));
    assert!(q.try_send(PlayerCommand::Stop));
    assert!(matches!(q.recv(), Some(PlayerCommand::Play)));
    assert!(matches!(q.recv(), Some(PlayerCommand::Next)));
    assert!(matches!(q.recv(), Some(PlayerCommand::Stop)));
    assert!(q.recv().is_none());
}

#[test]
fn recv_frees_room_for_new_commands() {
    let mut q = CommandQueue::new(1);
    assert!(q.try_send(PlayerCommand::Play));
    assert!(matches!(q.recv(), Some(PlayerCommand::Play)));
    assert!(q.try_send(PlayerCommand::Pause));
    assert!(matches!(q.recv(), Some(PlayerCommand::Pause)));
}
