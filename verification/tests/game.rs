use chess_gui::game::{
    promotion_prompt, Caption, Command, Game, Input, Key, Phase, Piece, PickCommand, Player,
};

#[test]
fn new_game_starts_running() {
    let game = Game::new();
    assert!(!game.game_end);
    assert!(!game.promoting);
    assert_eq!(game.selected_prom, Piece::Pawn);
    assert_eq!(game.board.len(), 64);
    assert!(game.board.iter().all(|t| !t.selected && t.move_marks == 0));
}

#[test]
fn escape_closes_in_every_state() {
    let mut game = Game::new();
    assert_eq!(game.handle_input(Input::KeyPress(Key::Escape)), Command::Close);
    game.game_end = true;
    game.promoting = true;
    assert_eq!(game.handle_input(Input::KeyPress(Key::Escape)), Command::Close);
    assert!(game.game_end);
    assert!(game.promoting);
}

#[test]
fn click_picks_only_in_running_game() {
    let mut game = Game::new();
    assert_eq!(game.handle_input(Input::LeftClick), Command::Pick);
    game.promoting = true;
    assert_eq!(game.handle_input(Input::LeftClick), Command::Nothing);
    game.promoting = false;
    game.game_end = true;
    assert_eq!(game.handle_input(Input::LeftClick), Command::Nothing);
}

#[test]
fn r_restarts_only_ended_game() {
    let mut game = Game::new();
    assert_eq!(game.handle_input(Input::KeyPress(Key::R)), Command::Nothing);
    assert!(!game.game_end);
    assert_eq!(game.end_frame(Phase::CheckMate), None);
    assert!(game.game_end);
    assert_eq!(game.handle_input(Input::KeyPress(Key::R)), Command::ResetChess);
    assert!(!game.game_end);
}

#[test]
fn number_keys_choose_promotion_only_while_promoting() {
    let mut game = Game::new();
    assert_eq!(game.handle_input(Input::KeyPress(Key::Num4)), Command::Nothing);
    assert_eq!(game.selected_prom, Piece::Pawn);
    assert_eq!(game.end_frame(Phase::SelectPromotion), Some(Piece::Pawn));
    assert!(game.promoting);
    game.handle_input(Input::KeyPress(Key::Num1));
    assert_eq!(game.selected_prom, Piece::Rook);
    game.handle_input(Input::KeyPress(Key::Num2));
    assert_eq!(game.selected_prom, Piece::Knight);
    game.handle_input(Input::KeyPress(Key::Num3));
    assert_eq!(game.selected_prom, Piece::Bishop);
    game.handle_input(Input::KeyPress(Key::Num4));
    assert_eq!(game.selected_prom, Piece::Queen);
    game.handle_input(Input::KeyPress(Key::Other));
    assert_eq!(game.selected_prom, Piece::Queen);
}

#[test]
fn promotion_round_trip() {
    let mut game = Game::new();
    assert_eq!(game.end_frame(Phase::SelectPromotion), Some(Piece::Pawn));
    game.promotion_reply(false);
    assert!(game.promoting);
    game.handle_input(Input::KeyPress(Key::Num2));
    assert_eq!(game.end_frame(Phase::SelectPromotion), Some(Piece::Knight));
    game.promotion_reply(true);
    assert!(!game.promoting);
    assert_eq!(game.selected_prom, Piece::Pawn);
}

#[test]
fn other_phases_change_nothing_at_frame_end() {
    let mut game = Game::new();
    assert_eq!(game.end_frame(Phase::SelectPiece), None);
    assert_eq!(game.end_frame(Phase::SelectMove), None);
    assert_eq!(game.end_frame(Phase::Other), None);
    assert!(!game.game_end);
    assert!(!game.promoting);
}

#[test]
fn pick_flips_rows_and_follows_phase() {
    let mut game = Game::new();
    assert_eq!(game.begin_pick(Phase::SelectPiece, 3, 1), PickCommand::SelectPiece { x: 3, y: 6 });
    assert_eq!(game.begin_pick(Phase::SelectMove, 0, 7), PickCommand::SelectMove { x: 0, y: 0 });
    assert_eq!(game.begin_pick(Phase::CheckMate, 4, 4), PickCommand::Nothing);
    assert_eq!(game.begin_pick(Phase::SelectPiece, 8, 0), PickCommand::SelectPiece { x: 8, y: 7 });
}

#[test]
fn pick_shows_selection_and_moves_then_clears() {
    let mut game = Game::new();
    game.begin_pick(Phase::SelectPiece, 4, 6);
    game.show_moves(4, 1, &vec![(4, 2), (4, 3)]);
    assert!(game.board[12].selected);
    assert_eq!(game.board[20].move_marks, 1);
    assert_eq!(game.board[28].move_marks, 1);
    assert_eq!(game.board.iter().filter(|t| t.selected).count(), 1);
    game.begin_pick(Phase::SelectMove, 4, 4);
    assert!(game.board.iter().all(|t| !t.selected && t.move_marks == 0));
    assert_eq!(game.board[12].shade, chess_gui::board::Shade::Dark);
}

#[test]
fn status_names_player_or_winner() {
    let mut game = Game::new();
    assert_eq!(game.status(Player::White), vec![Caption::WhitePlaying]);
    assert_eq!(game.status(Player::Black), vec![Caption::BlackPlaying]);
    game.end_frame(Phase::CheckMate);
    assert_eq!(game.status(Player::Black), vec![Caption::WhiteWins, Caption::PressRestart]);
    assert_eq!(game.status(Player::White), vec![Caption::BlackWins, Caption::PressRestart]);
}

#[test]
fn promotion_prompt_lists_four_pieces() {
    assert_eq!(
        promotion_prompt(Phase::SelectPromotion),
        vec![
            Caption::SelectPromotion,
            Caption::RookOption,
            Caption::KnightOption,
            Caption::BishopOption,
            Caption::QueenOption
        ]
    );
    assert!(promotion_prompt(Phase::SelectPiece).is_empty());
}

#[test]
fn caption_texts_match_screen() {
    assert_eq!(Caption::WhiteWins.text(), "White wins!");
    assert_eq!(Caption::BlackWins.text(), "Black wins!");
    assert_eq!(Caption::PressRestart.text(), "Press 'R' to restart.");
    assert_eq!(Caption::WhitePlaying.text(), "White is playing.");
    assert_eq!(Caption::BlackPlaying.text(), "Black is playing.");
    assert_eq!(Caption::SelectPromotion.text(), "Select promotion:");
    assert_eq!(Caption::RookOption.text(), "1: Rook");
    assert_eq!(Caption::KnightOption.text(), "2: Knight");
    assert_eq!(Caption::BishopOption.text(), "3: Bishop");
    assert_eq!(Caption::QueenOption.text(), "4: Queen");
}
