use lazychess::keys::{decide_key, key_action, Action, Key, KeyPress};
use lazychess::game::{status_text, GameResult, Side};
use lazychess::ui::{pv_summary, scroll_offset, Popup};

fn press(key: Key) -> KeyPress {
    KeyPress { key, ctrl: false }
}

#[test]
fn ctrl_c_quits_everywhere() {
    let k = KeyPress { key: Key::Char('c'), ctrl: true };
    assert_eq!(key_action(&Popup::Help, false, k), Action::Quit);
    assert_eq!(key_action(&Popup::Hidden, true, k), Action::Quit);
}

#[test]
fn popup_keys() {
    assert_eq!(key_action(&Popup::Help, false, press(Key::Char('?'))), Action::SetPopup(Popup::Hidden));
    assert_eq!(key_action(&Popup::Help, false, press(Key::Char('x'))), Action::Nothing);
    assert_eq!(key_action(&Popup::Import, false, press(Key::Char('f'))), Action::ImportFen);
    assert_eq!(key_action(&Popup::Import, false, press(Key::Char('p'))), Action::ImportPgn);
    assert_eq!(key_action(&Popup::Import, false, press(Key::Char('n'))), Action::NewGame);
    let d = Popup::Depth("1".to_string());
    assert_eq!(key_action(&d, false, press(Key::Char('5'))), Action::SetPopup(Popup::Depth("15".to_string())));
    assert_eq!(key_action(&d, false, press(Key::Char('a'))), Action::Nothing);
    assert_eq!(key_action(&d, false, press(Key::Backspace)), Action::SetPopup(Popup::Depth(String::new())));
    assert_eq!(key_action(&d, false, press(Key::Enter)), Action::ConfirmDepth("1".to_string()));
    let m = Popup::MultiPV(String::new());
    assert_eq!(key_action(&m, false, press(Key::Backspace)), Action::SetPopup(Popup::MultiPV(String::new())));
    assert_eq!(key_action(&m, false, press(Key::Esc)), Action::SetPopup(Popup::Hidden));
}

#[test]
fn typing_keys() {
    assert_eq!(key_action(&Popup::Hidden, true, press(Key::Char('q'))), Action::Insert('q'));
    assert_eq!(key_action(&Popup::Hidden, true, press(Key::Enter)), Action::SubmitInput);
    assert_eq!(key_action(&Popup::Hidden, true, press(Key::Esc)), Action::ExitInput);
    assert_eq!(key_action(&Popup::Hidden, true, press(Key::Home)), Action::CursorStart);
}

#[test]
fn normal_keys() {
    assert_eq!(key_action(&Popup::Hidden, false, press(Key::Char('q'))), Action::Quit);
    assert_eq!(key_action(&Popup::Hidden, false, press(Key::Char('d'))), Action::SetPopup(Popup::Depth(String::new())));
    assert_eq!(key_action(&Popup::Hidden, false, press(Key::Char('h'))), Action::GoBack);
    assert_eq!(key_action(&Popup::Hidden, false, press(Key::Right)), Action::GoForward);
    assert_eq!(key_action(&Popup::Hidden, false, press(Key::Char('1'))), Action::PlayLine(0));
    assert_eq!(key_action(&Popup::Hidden, false, press(Key::Char('9'))), Action::PlayLine(8));
    assert_eq!(key_action(&Popup::Hidden, false, press(Key::Char('0'))), Action::Nothing);
    assert_eq!(key_action(&Popup::Hidden, false, press(Key::Char('N'))), Action::StartTyping('N'));
    assert_eq!(key_action(&Popup::Hidden, false, press(Key::Char('é'))), Action::StartTyping('é'));
    assert_eq!(key_action(&Popup::Hidden, false, press(Key::Char('+'))), Action::Nothing);
    assert_eq!(key_action(&Popup::Hidden, false, press(Key::Enter)), Action::CommandMode);
    assert_eq!(decide_key(&Popup::Hidden, false, press(Key::Char('+')), true), Action::StartTyping('+'));
    assert_eq!(decide_key(&Popup::Hidden, false, press(Key::Char('N')), false), Action::Nothing);
}

#[test]
fn display_rules() {
    use_display_rules();
}

fn use_display_rules() {
    let pv: Vec<String> = ["e4", "e5", "Nf3", "Nc6", "Bb5", "a6", "Ba4"].iter().map(|s| s.to_string()).collect();
    assert_eq!(pv_summary(&pv), "e4 e5 Nf3 Nc6 Bb5 a6");
    let long: Vec<String> = ["exd8=Q+", "Kxd8", "Nxf7+", "Ke7", "Qxe6+", "Kf8"].iter().map(|s| s.to_string()).collect();
    assert_eq!(pv_summary(&long), "exd8=Q+ Kxd8 Nxf7+ Ke7 Q...");
    assert_eq!(pv_summary(&[]), "");
    let nums: Vec<usize> = (1..=30).collect();
    assert_eq!(scroll_offset(&nums, 0, 10, 30), 0);
    assert_eq!(scroll_offset(&nums, 21, 10, 30), 5);
    assert_eq!(scroll_offset(&nums, 59, 10, 30), 20);
    assert_eq!(scroll_offset(&nums, 40, 30, 30), 0);
    assert_eq!(status_text(Side::White, false, None), "White to move");
    assert_eq!(status_text(Side::Black, true, Some(GameResult::Win(Side::White))), "White wins!");
    assert_eq!(status_text(Side::White, true, Some(GameResult::Draw)), "Draw");
    assert_eq!(status_text(Side::Black, true, None), "Black to move");
}
