use pigin::model::Position;
use pigin::parse::position;
use pigin::parse::position::{parse, row};

fn chars(text: &str) -> Vec<char> {
    text.chars().collect()
}

fn rest(input: &[char], at: usize) -> String {
    input[at..].iter().collect()
}

#[test]
fn returns_err_if_not_a_position() {
    let input = chars("O-O-O e4");
    let result = parse(&input, 0);
    assert!(result.is_none())
}

#[test]
fn position_parses_position() {
    let input = chars("e4 Nc5");
    let (position, next) = parse(&input, 0).unwrap();
    assert_eq!(
        (rest(&input, next).as_str(), position),
        (" Nc5", Position::try_from(3, 4).unwrap())
    )
}

#[test]
fn returns_err_if_invalid_column() {
    let input = chars("j2");
    let result = position::column(&input, 0);
    assert!(result.is_none())
}

#[test]
fn parses_column() {
    let input = chars("e4");
    let (col, next) = position::column(&input, 0).unwrap();
    assert_eq!((rest(&input, next).as_str(), col), ("4", 4))
}

#[test]
fn returns_err_if_invalid_row() {
    let input = chars("b9");
    let result = row(&input, 0);
    assert!(result.is_none())
}

#[test]
fn parses_row() {
    let input = chars("4 b5");
    let (value, next) = row(&input, 0).unwrap();
    assert_eq!((rest(&input, next).as_str(), value), (" b5", 3))
}

#[test]
fn reads_every_square_of_the_board() {
    let files = ['a', 'b', 'c', 'd', 'e', 'f', 'g', 'h'];
    let ranks = ['1', '2', '3', '4', '5', '6', '7', '8'];
    for (col, file) in files.iter().enumerate() {
        for (row, rank) in ranks.iter().enumerate() {
            let input = vec![*file, *rank];
            let (position, next) = parse(&input, 0).unwrap();
            assert_eq!(next, 2);
            assert_eq!(position, Position::new(row as i8, col as i8));
        }
    }
}

#[test]
fn reads_nothing_beyond_the_input() {
    let input = chars("e");
    assert!(parse(&input, 0).is_none());
    assert!(parse(&input, 1).is_none());
    assert!(parse(&input, 7).is_none());
    assert!(position::column(&input, usize::MAX).is_none());
    assert!(row(&[], 0).is_none());
    assert!(row(&chars("0"), 0).is_none());
    assert!(row(&chars("9"), 0).is_none());
    assert!(position::column(&chars("i"), 0).is_none());
    assert!(position::column(&chars("A"), 0).is_none());
}
