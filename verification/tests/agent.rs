use oko_monitor::admin::{resume_command, serve_line, status_command, suspend_command};
use oko_monitor::client::{read_command, read_status, CoreClient, SystemStatus};
use oko_monitor::db::Db;
use oko_monitor::dialog;
use oko_monitor::dialog::{
    command_of, dialog_controls, dialog_position, on_message, ControlKind, DialogAction,
    DialogCommand, DialogMessage, PasswordDialog,
};
use oko_monitor::machine_id::{
    draw_machine_id, get_or_create_machine_id, machine_id_of, stored_machine_id,
};
use oko_monitor::network::Edition;
use oko_monitor::tray::{
    create_colored_icon, poll_due, MenuEntry, Rgb, SystemTray, TrayAction, TrayAgent,
};
use oko_monitor::utf16::to_wide_string;

#[test]
fn states_have_russian_names() {
    assert_eq!(SystemStatus::Active.to_string_ru(), "АКТИВЕН");
    assert_eq!(SystemStatus::Suspended.to_string_ru(), "ПРИОСТАНОВЛЕН");
    assert_eq!(SystemStatus::Disconnected.to_string_ru(), "ОТКЛЮЧЕН");
}

#[test]
fn the_client_knows_its_pipe() {
    assert_eq!(CoreClient::new().pipe_path(), r"\\.\pipe\CoreAdminPipe");
}

#[test]
fn status_replies_are_read() {
    assert_eq!(read_status("STATE: Suspended\n"), Ok(SystemStatus::Suspended));
    assert_eq!(read_status("STATE: sUSPENDED"), Ok(SystemStatus::Suspended));
    assert_eq!(read_status("STATE: Active\n"), Ok(SystemStatus::Active));
    assert_eq!(read_status("STATE: anything\n"), Ok(SystemStatus::Active));
    assert_eq!(
        read_status("ERROR: Unknown command\n"),
        Err("Неверный ответ статуса: ERROR: Unknown command".to_string())
    );
    assert_eq!(read_status("STATE:\n"), Err("Неверный ответ статуса: STATE:".to_string()));
}

#[test]
fn command_replies_are_read() {
    assert_eq!(read_command("OK\n"), Ok(()));
    assert_eq!(
        read_command("ERROR: Invalid password\n"),
        Err("Неверный мастер-пароль".to_string())
    );
    assert_eq!(read_command(""), Err("".to_string()));
}

#[test]
fn the_icon_agrees_with_floating_point() {
    let (r, g, b) = (10u8, 20u8, 30u8);
    let mut expected = vec![0u8; 1024];
    for y in 0..16usize {
        for x in 0..16usize {
            let dx = (x as f32) - 7.5;
            let dy = (y as f32) - 7.5;
            let dist = (dx * dx + dy * dy).sqrt();
            let i = (y * 16 + x) * 4;
            if dist <= 7.5 {
                expected[i] = r;
                expected[i + 1] = g;
                expected[i + 2] = b;
                expected[i + 3] = if dist <= 6.5 {
                    255
                } else {
                    ((7.5 - dist) * 255.0).clamp(0.0, 255.0) as u8
                };
            }
        }
    }
    assert_eq!(create_colored_icon(r, g, b), expected);
    assert_eq!(expected[3], 0);
    assert_eq!(expected[(7 * 16 + 7) * 4 + 3], 255);
}

#[test]
fn the_icon_is_symmetric() {
    let icon = create_colored_icon(1, 2, 3);
    for y in 0..16usize {
        for x in 0..16usize {
            let i = (y * 16 + x) * 4;
            let j = (y * 16 + (15 - x)) * 4;
            let k = (x * 16 + y) * 4;
            assert_eq!(icon[i..i + 4], icon[j..j + 4]);
            assert_eq!(icon[i..i + 4], icon[k..k + 4]);
        }
    }
}

#[test]
fn the_tray_shows_states() {
    let mut tray = SystemTray::new("OKO-1234ABCD", "s", "r", "q");
    assert_eq!(tray.status_text(), "Статус: Подключение...");
    assert_eq!(tray.colour(), Rgb { r: 230, g: 50, b: 50 });
    let item = |label: &str, enabled: bool| MenuEntry::Item {
        label: label.to_string(),
        enabled,
    };
    assert_eq!(
        tray.menu(),
        vec![
            item("Статус: Подключение...", false),
            item("ID Машины: OKO-1234ABCD", false),
            MenuEntry::Separator,
            item("Приостановить защиту", true),
            item("Возобновить защиту", true),
            MenuEntry::Separator,
            item("Выйти", true),
        ]
    );
    tray.update_status(SystemStatus::Active);
    assert_eq!(tray.status_text(), "Статус: АКТИВЕН");
    assert_eq!(tray.colour(), Rgb { r: 0, g: 200, b: 80 });
    tray.update_status(SystemStatus::Suspended);
    assert_eq!(tray.status_text(), "Статус: ПРИОСТАНОВЛЕН");
    assert_eq!(tray.colour(), Rgb { r: 240, g: 190, b: 0 });
    tray.update_status(SystemStatus::Disconnected);
    assert_eq!(tray.menu()[0], item("Статус: ОТКЛЮЧЕН", false));
}

#[test]
fn clicks_are_told_apart() {
    let tray = SystemTray::new("id", "s", "r", "q");
    assert!(tray.is_suspend_click("s") && !tray.is_suspend_click("r"));
    assert!(tray.is_resume_click("r") && !tray.is_resume_click("q"));
    assert!(tray.is_quit_click("q") && !tray.is_quit_click("s"));
    assert_eq!(tray.action_of("s"), TrayAction::Suspend);
    assert_eq!(tray.action_of("r"), TrayAction::Resume);
    assert_eq!(tray.action_of("q"), TrayAction::Quit);
    assert_eq!(tray.action_of("x"), TrayAction::Nothing);
}

#[test]
fn the_agent_shows_only_what_is_new() {
    let mut agent = TrayAgent::new();
    assert_eq!(agent.on_poll(None), None);
    assert_eq!(agent.on_poll(Some(SystemStatus::Active)), Some(SystemStatus::Active));
    assert_eq!(agent.on_poll(Some(SystemStatus::Active)), None);
    assert_eq!(agent.on_poll(None), Some(SystemStatus::Disconnected));
}

#[test]
fn the_agent_tells_how_commands_ended() {
    let mut agent = TrayAgent::new();
    let (notice, shown) = agent.on_command(true, &Ok(()));
    assert_eq!(notice.title, "Успех");
    assert_eq!(notice.text, "Защита системы успешно приостановлена.");
    assert!(notice.success);
    assert_eq!(shown, Some(SystemStatus::Suspended));
    assert_eq!(agent.on_poll(Some(SystemStatus::Suspended)), None);
    let (notice, shown) = agent.on_command(false, &Err("Неверный мастер-пароль".to_string()));
    assert_eq!(notice.title, "Ошибка");
    assert_eq!(notice.text, "Не удалось возобновить защиту:\nНеверный мастер-пароль");
    assert!(!notice.success);
    assert_eq!(shown, None);
    let (notice, shown) = agent.on_command(false, &Ok(()));
    assert_eq!(notice.text, "Защита системы успешно возобновлена.");
    assert_eq!(shown, Some(SystemStatus::Active));
    let (notice, _) = agent.on_command(true, &Err("e".to_string()));
    assert_eq!(notice.text, "Не удалось приостановить защиту:\ne");
}

#[test]
fn the_agent_asks_every_two_seconds() {
    assert!(!poll_due(1_999_999_999));
    assert!(poll_due(2_000_000_000));
}

#[test]
fn drawn_names_have_their_shape() {
    for _ in 0..200 {
        let id = draw_machine_id();
        assert_eq!(id.len(), 12);
        assert!(id.starts_with("OKO-"));
        assert!(id[4..].bytes().all(|b| b.is_ascii_uppercase() || b.is_ascii_digit()));
        assert_eq!(stored_machine_id(&id), Some(id.clone()));
    }
    assert!((0..20).any(|_| draw_machine_id() != draw_machine_id()));
    assert_eq!(machine_id_of("ab12Cd9z"), "OKO-AB12CD9Z");
}

#[test]
fn stored_names_are_trimmed() {
    assert_eq!(stored_machine_id("  OKO-1 \r\n"), Some("OKO-1".to_string()));
    assert_eq!(stored_machine_id(" \n"), None);
    assert_eq!(stored_machine_id(""), None);
}

#[test]
fn the_dialog_has_its_controls() {
    let controls = dialog_controls();
    let shape: Vec<(ControlKind, &str, i32, i32, i32, i32, i32)> = controls
        .iter()
        .map(|c| (c.kind, c.text, c.x, c.y, c.width, c.height, c.id))
        .collect();
    assert_eq!(
        shape,
        vec![
            (ControlKind::Label, "", 20, 20, 310, 20, 100),
            (ControlKind::PasswordField, "", 20, 45, 310, 24, 101),
            (ControlKind::DefaultButton, "Подтвердить", 120, 85, 100, 28, 1),
            (ControlKind::Button, "Отмена", 230, 85, 100, 28, 2),
        ]
    );
    assert_eq!(dialog::FIELD_CAPACITY, 256);
}

#[test]
fn the_dialog_stands_in_the_middle() {
    for (w, h) in [(1920, 1080), (1367, 769), (366, 160), (365, 159), (100, 0), (0, -1), (i32::MIN + 366, i32::MIN + 160)] {
        assert_eq!(dialog_position(w, h), ((w - 366) / 2, (h - 160) / 2));
    }
}

#[test]
fn messages_of_the_system() {
    assert_eq!(on_message(DialogMessage::Create), DialogAction::CreateControls);
    assert_eq!(on_message(DialogMessage::Command(1)), DialogAction::TakePasswordAndClose);
    assert_eq!(on_message(DialogMessage::Command(2)), DialogAction::CloseWindow);
    assert_eq!(on_message(DialogMessage::Command(101)), DialogAction::Nothing);
    assert_eq!(on_message(DialogMessage::Close), DialogAction::CloseWindow);
    assert_eq!(on_message(DialogMessage::Destroy), DialogAction::EndLoop);
    assert_eq!(on_message(DialogMessage::Other), DialogAction::PassOn);
    assert_eq!(command_of(0x0003_0001), DialogCommand::Confirm);
    assert_eq!(command_of(0xffff_ffff_ffff_0002), DialogCommand::Cancel);
    assert_eq!(command_of(0x0001_0000), DialogCommand::Nothing);
}

#[test]
fn what_was_typed_is_given() {
    let mut d = PasswordDialog::open();
    assert_eq!(d.answer(), None);
    let mut buffer = to_wide_string("пароль😀");
    let len = (buffer.len() - 1) as i32;
    buffer.resize(256, 0);
    d.confirm(&buffer, len);
    assert_eq!(d.answer(), Some("пароль😀".to_string()));
    let mut empty = PasswordDialog::open();
    empty.confirm(&vec![0; 256], 0);
    assert_eq!(empty.answer(), Some("".to_string()));
    let mut broken = PasswordDialog::open();
    broken.confirm(&vec![0x41, 0xd83d, 0], 2);
    assert_eq!(broken.answer(), None);
}

#[test]
fn the_agent_and_the_service_agree() {
    let mut db = Db::new_in_memory().expect("no database");
    db.set_master_password("pw").expect("no password");
    let mut agent = TrayAgent::new();
    let mut suspended = false;
    for suspend in [true, false] {
        let line = if suspend { suspend_command("pw") } else { resume_command("pw") };
        let outcome = serve_line(Edition::Networked, &mut db, suspended, &line);
        suspended = outcome.suspended;
        let (notice, shown) = agent.on_command(suspend, &read_command(&outcome.reply));
        assert!(notice.success);
        let told = serve_line(Edition::Networked, &mut db, suspended, &status_command());
        assert_eq!(shown, read_status(&told.reply).ok());
        assert_eq!(agent.on_poll(shown), None);
    }
}

#[test]
fn a_machine_keeps_its_name() {
    let stored = get_or_create_machine_id(Some(" OKO-AAAA1111\n"));
    assert_eq!((stored.id.as_str(), stored.fresh), ("OKO-AAAA1111", false));
    for content in [None, Some(""), Some(" \n")] {
        let drawn = get_or_create_machine_id(content);
        assert!(drawn.fresh);
        assert_eq!(drawn.id.len(), 12);
        let again = get_or_create_machine_id(Some(&drawn.id));
        assert_eq!((again.id, again.fresh), (drawn.id, false));
    }
}
