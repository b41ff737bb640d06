use flappy_dragon::draw::{print, print_centered, score_text, DrawCommand};

#[test]
fn score_text_writes_the_score_in_decimal() {
    assert_eq!(score_text(0), "Score: 0");
    assert_eq!(score_text(7), "Score: 7");
    assert_eq!(score_text(12), "Score: 12");
    assert_eq!(score_text(1000), "Score: 1000");
    assert_eq!(score_text(i32::MAX), "Score: 2147483647");
    assert_eq!(score_text(-7), "Score: -7");
    assert_eq!(score_text(i32::MIN), "Score: -2147483648");
}

#[test]
fn print_commands_hold_their_text() {
    assert_eq!(
        print(3, 4, "abc"),
        DrawCommand::Print { x: 3, y: 4, text: String::from("abc") }
    );
    assert_eq!(
        print_centered(9, "(Q) Quit Game"),
        DrawCommand::PrintCentered { y: 9, text: String::from("(Q) Quit Game") }
    );
}

#[test]
fn cloned_frame_equals_its_source() {
    let frame = flappy_dragon::draw::Frame {
        commands: vec![
            DrawCommand::Clear,
            print(0, 1, "Score: 3"),
            print_centered(5, "You're dead!"),
            DrawCommand::Put {
                x: 2,
                y: 3,
                fg: flappy_dragon::draw::Rgb { r: 1, g: 2, b: 3 },
                bg: flappy_dragon::draw::Rgb { r: 4, g: 5, b: 6 },
                glyph: 124,
            },
        ],
        quit: true,
    };
    assert_eq!(frame.clone(), frame);
}
