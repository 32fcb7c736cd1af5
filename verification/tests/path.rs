use rusty_win32::error::Win32Error;
use rusty_win32::path::{
    command_has_extension, resolve_command, search_failure, sized_read_step, split_pathext,
    SizedRead,
};
use std::cell::RefCell;

/// A stand-in for the system search: one directory holding `cmd.exe`,
/// matched case-insensitively, with the extension appended only to a
/// name that has none (the documented `SearchPathW` rule).
fn system_search(name: &str, ext: Option<&str>) -> Result<Option<String>, Win32Error> {
    let base = name.rsplit(['\\', '/']).next().unwrap_or(name);
    let file = match ext {
        Some(e) if !base.contains('.') => format!("{name}{e}"),
        _ => name.to_string(),
    };
    if file.eq_ignore_ascii_case("cmd.exe") {
        Ok(Some("C:\\Windows\\System32\\cmd.exe".to_string()))
    } else {
        Ok(None)
    }
}

#[test]
fn resolve_command_finds_a_bare_name_via_pathext() {
    let found = resolve_command("cmd", ".COM;.EXE;.BAT;.CMD", system_search)
        .expect("resolution should succeed")
        .expect("cmd should resolve to cmd.exe via PATHEXT");
    assert!(found.to_ascii_lowercase().ends_with("cmd.exe"));
}

#[test]
fn resolve_command_skips_pathext_when_an_extension_is_already_given() {
    let found = resolve_command("cmd.exe", ".BAT;.CMD", system_search) // deliberately missing .EXE
        .expect("resolution should succeed")
        .expect("an explicit extension should search as-is, ignoring pathext");
    assert!(found.to_ascii_lowercase().ends_with("cmd.exe"));
}

#[test]
fn resolve_command_reports_none_when_no_pathext_entry_matches() {
    let found = resolve_command(
        "this-command-should-not-exist-rusty-win32-test",
        ".COM;.EXE;.BAT;.CMD",
        system_search,
    )
    .expect("resolution should succeed even when nothing matches");
    assert_eq!(found, None);
}

#[test]
fn resolve_command_tries_extensions_in_order_and_stops_at_the_first_match() {
    let calls: RefCell<Vec<Option<String>>> = RefCell::new(Vec::new());
    let search = |_name: &str, ext: Option<&str>| {
        calls.borrow_mut().push(ext.map(|e| e.to_string()));
        if ext == Some(".BAT") {
            Ok(Some("found.bat".to_string()))
        } else {
            Ok(None)
        }
    };
    let r = resolve_command("tool", ";.COM;;.BAT;.CMD;", search);
    assert_eq!(r, Ok(Some("found.bat".to_string())));
    assert_eq!(
        *calls.borrow(),
        vec![Some(".COM".to_string()), Some(".BAT".to_string())]
    );
}

#[test]
fn resolve_command_stops_at_the_first_error() {
    let calls: RefCell<usize> = RefCell::new(0);
    let search = |_name: &str, ext: Option<&str>| {
        *calls.borrow_mut() += 1;
        if ext == Some(".EXE") {
            Err(Win32Error::ERROR_ACCESS_DENIED())
        } else {
            Ok(None)
        }
    };
    let r = resolve_command("tool", ".COM;.EXE;.BAT", search);
    assert_eq!(r, Err(Win32Error::ERROR_ACCESS_DENIED()));
    assert_eq!(*calls.borrow(), 2);
}

#[test]
fn resolve_command_with_an_empty_pathext_searches_nothing() {
    let calls: RefCell<usize> = RefCell::new(0);
    let search = |_name: &str, _ext: Option<&str>| {
        *calls.borrow_mut() += 1;
        Ok(Some("x".to_string()))
    };
    assert_eq!(resolve_command("tool", ";;", search), Ok(None));
    assert_eq!(*calls.borrow(), 0);
}

#[test]
fn an_extension_counts_only_in_the_last_path_component() {
    assert!(command_has_extension("cmd.exe"));
    assert!(command_has_extension("C:\\dir\\tool.bat"));
    assert!(!command_has_extension("C:\\my.dir\\tool"));
    assert!(!command_has_extension("./my.dir/tool"));
    assert!(!command_has_extension("tool"));
    assert!(command_has_extension(".hidden"));
}

#[test]
fn pathext_splits_on_semicolons_and_drops_empty_entries() {
    assert_eq!(split_pathext(".COM;.EXE"), vec![".COM", ".EXE"]);
    assert_eq!(split_pathext(";.A;;.B;"), vec![".A", ".B"]);
    assert_eq!(split_pathext(""), Vec::<String>::new());
    assert_eq!(split_pathext(";;;"), Vec::<String>::new());
}

#[test]
fn sized_read_step_follows_the_two_attempt_rule() {
    let buf: Vec<u16> = "C:\\Temp\\".encode_utf16().chain([0u16; 10]).collect();
    assert_eq!(sized_read_step(0, &buf, 0), SizedRead::LastError);
    assert_eq!(sized_read_step(0, &buf, 500), SizedRead::Grow(500));
    assert_eq!(
        sized_read_step(1, &buf, 500),
        SizedRead::Failed(Win32Error::ERROR_INSUFFICIENT_BUFFER())
    );
    assert_eq!(sized_read_step(0, &buf, 8), SizedRead::Text("C:\\Temp\\".to_string()));
    assert_eq!(sized_read_step(1, &buf, 3), SizedRead::Text("C:\\".to_string()));
}

#[test]
fn a_search_that_finds_nothing_is_not_an_error() {
    assert_eq!(search_failure(Win32Error::ERROR_FILE_NOT_FOUND()), Ok(None));
    assert_eq!(
        search_failure(Win32Error::ERROR_ACCESS_DENIED()),
        Err(Win32Error::ERROR_ACCESS_DENIED())
    );
}
