use mcc::console_log::{LogColor, LogModifier, LogStyle, LogType};

#[test]
fn classifies_console_lines() {
    assert_eq!(LogType::get_of("[10:00:00] [Render thread/INFO]: [CHAT] hello".to_string()), LogType::CHAT);
    assert_eq!(LogType::get_of("[10:00:00] [Render thread/INFO]: [System] [CHAT] joined".to_string()), LogType::CHAT);
    assert_eq!(LogType::get_of("[10:00:00] [Render thread/ERROR]: boom".to_string()), LogType::ERROR);
    assert_eq!(LogType::get_of("[10:00:00] [Render thread/WARN]: careful".to_string()), LogType::WARN);
    assert_eq!(LogType::get_of("[10:00:00] [Render thread/INFO]: Stopping!".to_string()), LogType::STOP);
    assert_eq!(LogType::get_of("[10:00:00] [Render thread/INFO]: Loaded".to_string()), LogType::INFO);
    assert_eq!(LogType::get_of("plain text".to_string()), LogType::INFO);
}

#[test]
fn chat_takes_precedence_over_errors() {
    assert_eq!(LogType::get_of("INFO]: [CHAT] ERROR]: not really".to_string()), LogType::CHAT);
    assert_eq!(LogType::get_of("ERROR]: WARN]: both".to_string()), LogType::ERROR);
}

#[test]
fn styles_of_each_kind() {
    assert_eq!(LogType::WARN.get_style(), LogStyle { fg: LogColor::Yellow, modifier: None });
    assert_eq!(LogType::ERROR.get_style(), LogStyle { fg: LogColor::Red, modifier: None });
    assert_eq!(LogType::CHAT.get_style(), LogStyle { fg: LogColor::Green, modifier: Some(LogModifier::Bold) });
    assert_eq!(LogType::STOP.get_style(), LogStyle { fg: LogColor::Magenta, modifier: Some(LogModifier::Italic) });
    assert_eq!(LogType::INFO.get_style(), LogStyle { fg: LogColor::Gray, modifier: None });
    assert_eq!(LogType::DEAD.get_style(), LogStyle { fg: LogColor::Gray, modifier: None });
}
