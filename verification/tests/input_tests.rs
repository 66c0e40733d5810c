use rustmix::error::RmxError;
use rustmix::input;
use rustmix::io::{self, KeyInput, MENU_PROMPT};

#[test]
fn io_get_drops_the_line_feed() {
    assert_eq!(io::get("abc\n".to_string()), Ok("abc".to_string()));
    assert_eq!(io::get(String::new()), Ok(String::new()));
    assert_eq!(io::get("\n".to_string()), Ok(String::new()));
}

#[test]
fn io_get_str_refuses_empty_input() {
    assert_eq!(io::get_str("name\n".to_string()), Ok("name".to_string()));
    assert_eq!(io::get_str("\n".to_string()), Err(RmxError::NoInput));
    assert_eq!(io::get_str(String::new()), Err(RmxError::NoInput));
    assert_eq!(io::get_str("é\n".to_string()), Ok("é".to_string()));
}

#[test]
fn io_get_numeric_parses_or_reports() {
    let parse = |s: &str| s.parse::<i32>().map_err(|e| e.to_string());
    assert_eq!(io::get_numeric("42\n".to_string(), parse), Ok(42));
    assert_eq!(io::get_numeric("-7\n".to_string(), parse), Ok(-7));
    assert_eq!(io::get_numeric("\n".to_string(), parse), Err(RmxError::NoInput));
    assert_eq!(
        io::get_numeric("x\n".to_string(), parse),
        Err(RmxError::Io("invalid digit found in string".to_string()))
    );
}

#[test]
fn io_keys_and_confirmation() {
    assert_eq!(io::get_char(KeyInput::Char('q')), Some(Ok('q')));
    assert_eq!(io::get_char(KeyInput::Esc), Some(Err(RmxError::NoInput)));
    assert_eq!(io::get_char(KeyInput::Enter), Some(Err(RmxError::NoInput)));
    assert_eq!(io::get_char(KeyInput::Other), None);
    assert_eq!(io::confirm('y'), Ok(true));
    assert_eq!(io::confirm('Y'), Ok(true));
    assert_eq!(io::confirm('n'), Err(RmxError::NoInput));
    assert_eq!(io::get_password_str("secret".to_string()), Ok("secret".to_string()));
    assert_eq!(io::get_password_str(String::new()), Err(RmxError::NoInput));
}

#[test]
fn menu_and_prompt() {
    assert_eq!(io::menu_prompt(Some("Pick")), "Pick");
    assert_eq!(io::menu_prompt(Some("")), MENU_PROMPT);
    assert_eq!(io::menu_prompt(None), MENU_PROMPT);
    assert_eq!(io::display_menu(0, 3), 1);
    assert_eq!(io::display_menu(1, 3), 2);
    assert_eq!(io::display_menu(2, 3), 0);
    assert_eq!(io::display_menu(0, 1), 0);
    assert_eq!(io::prompt_text(Some("Name:")), Some("Name: ".to_string()));
    assert_eq!(io::prompt_text(Some("")), None);
    assert_eq!(io::prompt_text(None), None);
}

#[test]
fn input_module_variants() {
    assert_eq!(input::get("abc\n".to_string()), Ok("abc".to_string()));
    assert_eq!(input::get("\n".to_string()), Err(RmxError::NoInput));
    assert_eq!(input::get(String::new()), Err(RmxError::NoInput));
    let parse = |s: &str| s.parse::<u8>().ok();
    assert_eq!(input::get_numeric("200\n".to_string(), parse), Ok(200u8));
    assert_eq!(
        input::get_numeric("300\n".to_string(), parse),
        Err(RmxError::Invalid(input::INVALID_INPUT.to_string()))
    );
    assert_eq!(input::get_numeric("\n".to_string(), parse), Err(RmxError::NoInput));
    assert_eq!(input::get_password(String::new()), Err(RmxError::NoInput));
    assert_eq!(input::get_password("pw".to_string()), Ok("pw".to_string()));
    assert_eq!(input::confirm('y'), Ok(true));
    assert_eq!(input::confirm('x'), Err(RmxError::Canceled));
    assert_eq!(input::get_char(KeyInput::Char('a')), Some(Ok('a')));
}
