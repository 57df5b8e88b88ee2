use pigin::engine::{
    execute_move, execute_moves, piece_move, qualified_position, update_available_castles,
    CastleSide, EngineError,
};
use pigin::model::{
    AvailableCastle, Board, MoveQualifier, Movement, Piece, PieceColour, PieceType, Ply,
    PlyMovement, Position,
};
use pigin::parse::{fen, movement};

const START: &str = "rnbqkbnr/pppppppp/8/8/8/8/PPPPPPPP/RNBQKBNR w KQkq - 0 1";

const OPERA: &str = "1.e4 e5 2.Nf3 d6 3.d4 Bg4 4.dxe5 Bxf3 5.Qxf3 dxe5 6.Bc4 Nf6 7.Qb3 Qe7 \
8.Nc3 c6 9.Bg5 b5 10.Nxb5 cxb5 11.Bxb5+ Nbd7 12.O-O-O Rd8 13.Rxd7 Rxd7 14.Rd1 Qe6 \
15.Bxd7+ Nxd7 16.Qb8+ Nxb8 17.Rd8# 1-0";

fn board_of(record: &str) -> Board {
    *fen::parse(record).unwrap().starting_board()
}

fn plies_of(text: &str) -> Vec<Ply> {
    let input: Vec<char> = text.chars().collect();
    let (plies, next) = movement::parse(&input, 0).unwrap();
    assert_eq!(next, input.len());
    plies
}

fn replay(record: &str, text: &str) -> Result<Vec<Board>, EngineError> {
    execute_moves(&board_of(record), &plies_of(text))
}

fn white(piece_type: PieceType) -> Piece {
    Piece::new(PieceColour::White, piece_type)
}

fn black(piece_type: PieceType) -> Piece {
    Piece::new(PieceColour::Black, piece_type)
}

#[test]
fn double_pawn_push_sets_en_passant() {
    let boards = replay(START, "1. e4 *").unwrap();
    assert_eq!(boards.len(), 2);
    let board = &boards[1];
    assert_eq!(board.occupant(Position::new(3, 4)), Some(&white(PieceType::Pawn)));
    assert_eq!(board.occupant(Position::new(1, 4)), None);
    assert_eq!(board.en_passant_square(), Some(&Position::new(2, 4)));
    assert_eq!(board.halfmove_clock(), 0);
    assert_eq!(board.fullmove_clock(), 1);
    assert_eq!(board.active_colour(), &PieceColour::Black);
}

#[test]
fn en_passant_capture_clears_target() {
    let boards = replay(START, "1. e4 a6 2. e5 d5 3. exd6 *").unwrap();
    assert_eq!(boards.len(), 6);
    assert_eq!(boards[4].en_passant_square(), Some(&Position::new(5, 3)));
    let board = &boards[5];
    assert_eq!(board.occupant(Position::new(5, 3)), Some(&white(PieceType::Pawn)));
    assert_eq!(board.occupant(Position::new(4, 3)), None);
    assert_eq!(board.occupant(Position::new(4, 4)), None);
    assert_eq!(board.en_passant_square(), None);
    assert_eq!(board.halfmove_clock(), 0);
    assert_eq!(board.search(black(PieceType::Pawn)).len(), 7);
}

#[test]
fn promotion_to_knight() {
    let plies = plies_of("1. b8=N *");
    assert_eq!(
        plies[0].movement(),
        &PlyMovement::Promotion {
            movement: Movement::new(white(PieceType::Pawn), Position::new(7, 1)),
            promotes_to: PieceType::Knight,
            qualifier: None,
            capture: false,
            check: None,
        }
    );
    let boards = execute_moves(&board_of("4k3/1P6/8/8/8/8/8/4K3 w - - 0 1"), &plies).unwrap();
    let board = &boards[1];
    assert_eq!(board.occupant(Position::new(6, 1)), None);
    assert_eq!(board.occupant(Position::new(7, 1)), Some(&white(PieceType::Knight)));
    assert_eq!(board.search(white(PieceType::Pawn)), vec![]);
    assert_eq!(board.halfmove_clock(), 0);
}

#[test]
fn kingside_castle_updates_both_pieces_and_rights() {
    let boards = replay("4k2r/8/8/8/8/8/8/4K2R w Kk - 3 1", "1. O-O *").unwrap();
    let board = &boards[1];
    assert_eq!(board.occupant(Position::new(0, 6)), Some(&white(PieceType::King)));
    assert_eq!(board.occupant(Position::new(0, 5)), Some(&white(PieceType::Rook)));
    assert_eq!(board.occupant(Position::new(0, 4)), None);
    assert_eq!(board.occupant(Position::new(0, 7)), None);
    assert_eq!(board.available_castles(), vec![AvailableCastle::BlackKingside]);
    assert_eq!(board.halfmove_clock(), 4);
    assert_eq!(board.fullmove_clock(), 1);
    assert_eq!(board.active_colour(), &PieceColour::Black);
}

#[test]
fn disambiguation_by_file() {
    let boards = replay("4k3/8/8/8/8/8/8/R3R1K1 w - - 0 1", "1. Rad1 *").unwrap();
    let board = &boards[1];
    assert_eq!(board.occupant(Position::new(0, 3)), Some(&white(PieceType::Rook)));
    assert_eq!(board.occupant(Position::new(0, 0)), None);
    assert_eq!(board.occupant(Position::new(0, 4)), Some(&white(PieceType::Rook)));
    assert_eq!(board.halfmove_clock(), 1);
}

#[test]
fn pin_prevents_disambiguation_choice() {
    let boards = replay("3rk3/8/8/8/8/2N5/3N4/3K4 w - - 0 1", "1. Ne4 *").unwrap();
    let board = &boards[1];
    assert_eq!(board.occupant(Position::new(3, 4)), Some(&white(PieceType::Knight)));
    assert_eq!(board.occupant(Position::new(2, 2)), None);
    assert_eq!(board.occupant(Position::new(1, 3)), Some(&white(PieceType::Knight)));
}

#[test]
fn two_free_knights_need_a_qualifier() {
    let result = replay("4r1k1/8/8/8/8/2N5/3N4/4K3 w - - 0 1", "1. Ne4 *");
    assert_eq!(
        result,
        Err(EngineError::AmbiguousPly(
            white(PieceType::Knight),
            Position::new(3, 4),
            vec![Position::new(1, 3), Position::new(2, 2)]
        ))
    );
    let boards = replay("4r1k1/8/8/8/8/2N5/3N4/4K3 w - - 0 1", "1. Nde4 *").unwrap();
    assert_eq!(boards[1].occupant(Position::new(1, 3)), None);
    let boards = replay("4r1k1/8/8/8/8/2N5/3N4/4K3 w - - 0 1", "1. N3e4 *").unwrap();
    assert_eq!(boards[1].occupant(Position::new(2, 2)), None);
    let result = replay("4r1k1/8/8/8/8/2N5/3N4/4K3 w - - 0 1", "1. Nae4 *");
    assert!(matches!(result, Err(EngineError::AmbiguousPly(_, _, _))));
}

#[test]
fn replay_of_no_plies_returns_the_start() {
    let start = board_of(START);
    let boards = execute_moves(&start, &[]).unwrap();
    assert_eq!(boards, vec![start]);
}

#[test]
fn replay_keeps_every_board() {
    let start = board_of(START);
    let plies = plies_of(OPERA);
    assert_eq!(plies.len(), 33);
    let boards = execute_moves(&start, &plies).unwrap();
    assert_eq!(boards.len(), plies.len() + 1);
    assert_eq!(boards[0], start);
    for (index, ply) in plies.iter().enumerate() {
        let next = execute_move(&boards[index], ply.movement()).unwrap();
        assert_eq!(next, boards[index + 1]);
    }
    let last = &boards[33];
    assert_eq!(last.occupant(Position::new(7, 3)), Some(&white(PieceType::Rook)));
    assert_eq!(last.occupant(Position::new(7, 1)), Some(&black(PieceType::Knight)));
    assert_eq!(last.occupant(Position::new(0, 2)), Some(&white(PieceType::King)));
    assert_eq!(last.occupant(Position::new(5, 4)), Some(&black(PieceType::Queen)));
    assert_eq!(last.search(white(PieceType::Queen)), vec![]);
    assert_eq!(last.available_castles(), vec![AvailableCastle::BlackKingside]);
    assert_eq!(last.halfmove_clock(), 1);
    assert_eq!(last.fullmove_clock(), 17);
    assert_eq!(last.active_colour(), &PieceColour::Black);
    assert_eq!(last.en_passant_square(), None);
}

#[test]
fn clocks_follow_the_plies() {
    let start = board_of(START);
    let plies = plies_of(OPERA);
    let boards = execute_moves(&start, &plies).unwrap();
    for (index, ply) in plies.iter().enumerate() {
        let before = &boards[index];
        let after = &boards[index + 1];
        let played_by_black = match ply.movement() {
            PlyMovement::Move { movement, .. } | PlyMovement::Promotion { movement, .. } => {
                movement.piece().colour() == &PieceColour::Black
            }
            PlyMovement::KingsideCastle { colour, .. }
            | PlyMovement::QueensideCastle { colour, .. } => colour == &PieceColour::Black,
        };
        assert_eq!(played_by_black, before.active_colour() == &PieceColour::Black);
        assert_eq!(
            after.fullmove_clock(),
            before.fullmove_clock() + if played_by_black { 1 } else { 0 }
        );
        assert!(after.fullmove_clock() >= before.fullmove_clock());
        assert_ne!(after.active_colour(), before.active_colour());
        let (pawn, capture) = match ply.movement() {
            PlyMovement::Move { movement, .. } | PlyMovement::Promotion { movement, .. } => (
                movement.piece().piece_type() == &PieceType::Pawn,
                before.occupant(movement.position()).is_some(),
            ),
            _ => (false, false),
        };
        if pawn || capture {
            assert_eq!(after.halfmove_clock(), 0);
        } else {
            assert_eq!(after.halfmove_clock(), before.halfmove_clock() + 1);
        }
        for castle in after.available_castles() {
            assert!(before.available_castles().contains(&castle));
        }
    }
}

#[test]
fn en_passant_target_lasts_one_ply() {
    let boards = replay(START, "1. e4 Nf6 2. e5 d5 3. Nc3 d4 4. f4 *").unwrap();
    let targets: Vec<Option<Position>> = boards
        .iter()
        .map(|board| board.en_passant_square().copied())
        .collect();
    assert_eq!(
        targets,
        vec![
            None,
            Some(Position::new(2, 4)),
            None,
            None,
            Some(Position::new(5, 3)),
            None,
            None,
            Some(Position::new(2, 5)),
        ]
    );
}

#[test]
fn rook_and_king_moves_drop_rights() {
    let boards = replay(
        "r3k2r/8/8/8/8/8/8/R3K2R w KQkq - 0 1",
        "1. Rb1 Rg8 2. Ra1 Ke7 3. Kd1 *",
    )
    .unwrap();
    let rights: Vec<Vec<AvailableCastle>> =
        boards.iter().map(|board| board.available_castles()).collect();
    assert_eq!(
        rights,
        vec![
            vec![
                AvailableCastle::WhiteKingside,
                AvailableCastle::WhiteQueenside,
                AvailableCastle::BlackKingside,
                AvailableCastle::BlackQueenside
            ],
            vec![
                AvailableCastle::WhiteKingside,
                AvailableCastle::BlackKingside,
                AvailableCastle::BlackQueenside
            ],
            vec![AvailableCastle::WhiteKingside, AvailableCastle::BlackQueenside],
            vec![AvailableCastle::WhiteKingside, AvailableCastle::BlackQueenside],
            vec![AvailableCastle::WhiteKingside],
            vec![],
        ]
    );
}

#[test]
fn castle_without_its_right_is_refused() {
    let result = replay("r3k2r/8/8/8/8/8/8/R3K2R w Kkq - 0 1", "1. O-O-O *");
    assert_eq!(
        result,
        Err(EngineError::IllegalCastle(
            PieceColour::White,
            CastleSide::Queenside
        ))
    );
    let result = replay("r3k2r/8/8/8/8/8/8/R3K2R w Kkq - 0 1", "1. O-O O-O 2. Kh1 O-O-O *");
    assert_eq!(
        result,
        Err(EngineError::IllegalCastle(
            PieceColour::Black,
            CastleSide::Queenside
        ))
    );
}

#[test]
fn move_without_a_king_is_refused() {
    let result = replay("4k3/8/8/8/8/8/4P3/8 w - - 0 1", "1. e4 *");
    assert_eq!(result, Err(EngineError::NoKing(PieceColour::White)));
    assert_eq!(
        result.unwrap_err().message(),
        "Could not locate king of colour White"
    );
}

#[test]
fn move_that_no_piece_can_make_is_refused() {
    let result = replay(START, "1. Nf6 *");
    assert_eq!(
        result,
        Err(EngineError::NoCandidate(
            white(PieceType::Knight),
            Position::new(5, 5)
        ))
    );
    assert_eq!(
        result.unwrap_err().message(),
        "No White knight can move to f6"
    );
    let result = replay(START, "1. e4 e5 2. Qh5 Nc6 3. Qxf7+ Nf6 4. Bc4 *");
    assert_eq!(
        result,
        Err(EngineError::NoCandidate(
            black(PieceType::Knight),
            Position::new(5, 5)
        ))
    );
}

#[test]
fn error_messages_name_what_failed() {
    assert_eq!(
        EngineError::IllegalCastle(PieceColour::Black, CastleSide::Kingside).message(),
        "Kingside castle for Black is not a legal move"
    );
    assert_eq!(
        EngineError::AmbiguousPly(
            black(PieceType::Rook),
            Position::new(7, 3),
            vec![Position::new(7, 0), Position::new(7, 7)]
        )
        .message(),
        "Cannot tell which Black rook moves to d8: 2 candidates"
    );
}

#[test]
fn qualifier_picks_among_candidates() {
    let candidates = [Position::new(0, 0), Position::new(0, 4), Position::new(3, 4)];
    assert_eq!(
        qualified_position(&candidates, &MoveQualifier::Col(0)),
        Some(Position::new(0, 0))
    );
    assert_eq!(qualified_position(&candidates, &MoveQualifier::Col(4)), None);
    assert_eq!(qualified_position(&candidates, &MoveQualifier::Col(5)), None);
    assert_eq!(
        qualified_position(&candidates, &MoveQualifier::Row(3)),
        Some(Position::new(3, 4))
    );
    assert_eq!(qualified_position(&candidates, &MoveQualifier::Row(0)), None);
    assert_eq!(
        qualified_position(&candidates, &MoveQualifier::Position(Position::new(6, 6))),
        Some(Position::new(6, 6))
    );
}

#[test]
fn piece_move_plays_the_whole_ply() {
    let start = board_of(START);
    let movement = Movement::new(white(PieceType::Knight), Position::new(2, 5));
    let board = piece_move(&start, &movement, None, None).unwrap();
    assert_eq!(board.occupant(Position::new(2, 5)), Some(&white(PieceType::Knight)));
    assert_eq!(board.occupant(Position::new(0, 6)), None);
    assert_eq!(board.halfmove_clock(), 1);
    assert_eq!(board.fullmove_clock(), 1);
    assert_eq!(board.active_colour(), &PieceColour::Black);

    let movement = Movement::new(white(PieceType::Pawn), Position::new(3, 4));
    let board = piece_move(&start, &movement, None, None).unwrap();
    assert_eq!(board.occupant(Position::new(3, 4)), Some(&white(PieceType::Pawn)));
    assert_eq!(board.occupant(Position::new(1, 4)), None);
    assert_eq!(board.en_passant_square(), Some(&Position::new(2, 4)));
    assert_eq!(board.halfmove_clock(), 0);
    assert_eq!(board.fullmove_clock(), 1);
    assert_eq!(board.active_colour(), &PieceColour::Black);
    assert_eq!(
        execute_move(
            &start,
            &PlyMovement::Move {
                movement,
                qualifier: None,
                capture: false,
                check: None
            }
        ),
        Ok(board)
    );

    let reply = Movement::new(black(PieceType::Pawn), Position::new(4, 3));
    let board = piece_move(&board, &reply, None, None).unwrap();
    assert_eq!(board.en_passant_square(), Some(&Position::new(5, 3)));
    assert_eq!(board.halfmove_clock(), 0);
    assert_eq!(board.fullmove_clock(), 2);
    assert_eq!(board.active_colour(), &PieceColour::White);

    let capture = Movement::new(white(PieceType::Pawn), Position::new(4, 3));
    let board = piece_move(&board, &capture, None, None).unwrap();
    assert_eq!(board.occupant(Position::new(4, 3)), Some(&white(PieceType::Pawn)));
    assert_eq!(board.en_passant_square(), None);
    assert_eq!(board.halfmove_clock(), 0);
    assert_eq!(board.fullmove_clock(), 2);
}

#[test]
fn fullmove_clock_counts_the_plies_of_black() {
    let boards = replay("4k3/8/8/8/8/8/8/4K3 b - - 0 1", "1. Ke2 *").unwrap();
    assert_eq!(boards[1].fullmove_clock(), 1);
    assert_eq!(boards[1].halfmove_clock(), 1);
    assert_eq!(boards[1].active_colour(), &PieceColour::White);

    let boards = replay("4k3/8/8/8/8/8/8/4K3 w - - 0 1", "1... Ke7 *").unwrap();
    assert_eq!(boards[1].fullmove_clock(), 2);
    assert_eq!(boards[1].active_colour(), &PieceColour::Black);

    let boards = replay("4k2r/8/8/8/8/8/8/4K2R w Kk - 3 1", "1. O-O O-O *").unwrap();
    assert_eq!(boards[1].fullmove_clock(), 1);
    assert_eq!(boards[2].fullmove_clock(), 2);
    assert_eq!(boards[2].halfmove_clock(), 5);
    assert_eq!(boards[2].available_castles(), vec![]);
}

#[test]
fn only_rooks_from_their_corners_and_kings_touch_rights() {
    let start = board_of(START);
    let mut board = start;
    update_available_castles(white(PieceType::Rook), Position::new(0, 3), &mut board);
    assert_eq!(board, start);
    update_available_castles(white(PieceType::Queen), Position::new(0, 0), &mut board);
    assert_eq!(board, start);
    update_available_castles(black(PieceType::Rook), Position::new(0, 0), &mut board);
    assert_eq!(board, start);
    update_available_castles(black(PieceType::Rook), Position::new(7, 0), &mut board);
    assert_eq!(
        board.available_castles(),
        vec![
            AvailableCastle::WhiteKingside,
            AvailableCastle::WhiteQueenside,
            AvailableCastle::BlackKingside
        ]
    );
    update_available_castles(white(PieceType::King), Position::new(3, 3), &mut board);
    assert_eq!(board.available_castles(), vec![AvailableCastle::BlackKingside]);
}
