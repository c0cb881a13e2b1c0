use omp_launcher::cli::CliArgs;
use omp_launcher::errors::LauncherError;
use omp_launcher::validation::sanitize_password;
use omp_launcher::validation::trim_str;
use omp_launcher::validation::validate_file_path;
use omp_launcher::validation::validate_hostname;
use omp_launcher::validation::validate_player_name;
use omp_launcher::validation::validate_port;

#[test]
fn port_bounds() {
    assert_eq!(validate_port(1).unwrap(), 1);
    assert_eq!(validate_port(7777).unwrap(), 7777);
    assert_eq!(validate_port(65535).unwrap(), 65535);
    match validate_port(0) {
        Err(LauncherError::InvalidInput(m)) => {
            assert_eq!(m, "Port 0 is out of valid range (1-65535)");
        },
        _ => panic!("expected InvalidInput"),
    }
    match validate_port(-3) {
        Err(LauncherError::InvalidInput(m)) => {
            assert_eq!(m, "Port -3 is out of valid range (1-65535)");
        },
        _ => panic!("expected InvalidInput"),
    }
    assert!(matches!(validate_port(65536), Err(LauncherError::InvalidInput(_))));
}

#[test]
fn hostname_is_trimmed() {
    assert_eq!(validate_hostname("  play.example.com  ").unwrap(), "play.example.com");
}

#[test]
fn hostname_rejects_empty_and_whitespace_only() {
    match validate_hostname("   ") {
        Err(LauncherError::InvalidInput(m)) => assert_eq!(m, "Hostname cannot be empty"),
        _ => panic!("expected InvalidInput"),
    }
}

#[test]
fn hostname_rejects_overlong() {
    let long = "a".repeat(254);
    match validate_hostname(&long) {
        Err(LauncherError::InvalidInput(m)) => assert_eq!(m, "Hostname too long"),
        _ => panic!("expected InvalidInput"),
    }
    assert!(validate_hostname(&"a".repeat(253)).is_ok());
}

#[test]
fn hostname_rejects_bad_characters() {
    assert!(matches!(validate_hostname("bad host"), Err(LauncherError::InvalidInput(_))));
    assert!(matches!(validate_hostname("host!"), Err(LauncherError::InvalidInput(_))));
    assert!(validate_hostname("a-b_c.d1").is_ok());
}

#[test]
fn hostname_error_names_first_offending_character() {
    match validate_hostname("bad host!") {
        Err(LauncherError::InvalidInput(m)) => {
            assert_eq!(m, "Invalid character in hostname: ' '");
        },
        _ => panic!("expected InvalidInput"),
    }
    match validate_hostname("host!x") {
        Err(LauncherError::InvalidInput(m)) => {
            assert_eq!(m, "Invalid character in hostname: '!'");
        },
        _ => panic!("expected InvalidInput"),
    }
}

#[test]
fn player_name_length_rules() {
    assert_eq!(validate_player_name(" Kalle ").unwrap(), "Kalle");
    match validate_player_name("ab") {
        Err(LauncherError::InvalidInput(m)) => {
            assert_eq!(m, "Player name must be at least 3 characters");
        },
        _ => panic!("expected InvalidInput"),
    }
    match validate_player_name(&"x".repeat(25)) {
        Err(LauncherError::InvalidInput(m)) => {
            assert_eq!(m, "Player name cannot exceed 24 characters");
        },
        _ => panic!("expected InvalidInput"),
    }
    assert!(validate_player_name(&"x".repeat(24)).is_ok());
}

#[test]
fn player_name_characters() {
    assert!(validate_player_name("[ABC]Kalle_1").is_ok());
    match validate_player_name("Kalle!") {
        Err(LauncherError::InvalidInput(m)) => {
            assert_eq!(m, "Invalid character in player name: '!'");
        },
        _ => panic!("expected InvalidInput"),
    }
    match validate_player_name("  ") {
        Err(LauncherError::InvalidInput(m)) => assert_eq!(m, "Player name cannot be empty"),
        _ => panic!("expected InvalidInput"),
    }
}

#[test]
fn file_path_shape_rules() {
    match validate_file_path("", true) {
        Err(LauncherError::InvalidInput(m)) => assert_eq!(m, "File path cannot be empty"),
        _ => panic!("expected InvalidInput"),
    }
    match validate_file_path("/games/../etc", true) {
        Err(LauncherError::InvalidInput(m)) => assert_eq!(m, "Path contains invalid sequences"),
        _ => panic!("expected InvalidInput"),
    }
    assert!(matches!(
        validate_file_path("/games//gta", true),
        Err(LauncherError::InvalidInput(_))
    ));
}

#[test]
fn file_path_existence_rule() {
    match validate_file_path("/games/gta", false) {
        Err(LauncherError::NotFound(m)) => assert_eq!(m, "Path does not exist: /games/gta"),
        _ => panic!("expected NotFound"),
    }
    assert_eq!(validate_file_path(" /games/gta ", true).unwrap(), "/games/gta");
}

#[test]
fn password_sanitizing_drops_controls_and_trims() {
    assert_eq!(sanitize_password("  secret  "), "secret");
    assert_eq!(sanitize_password("se\u{0}cr\u{7}et"), "secret");
    assert_eq!(sanitize_password("pa ss"), "pa ss");
    assert_eq!(sanitize_password("\u{0}\u{1}  "), "");
}

#[test]
fn trim_handles_all_whitespace() {
    assert_eq!(trim_str("   "), "");
    assert_eq!(trim_str(""), "");
    assert_eq!(trim_str(" a b "), "a b");
    assert_eq!(trim_str("ab"), "ab");
}

fn full_args() -> CliArgs {
    CliArgs {
        help: false,
        host: Some("play.example.com".to_string()),
        port: Some(7777),
        password: Some(" hunter2 ".to_string()),
        name: Some("Kalle".to_string()),
        gamepath: Some("/games/gta".to_string()),
        no_omp: false,
    }
}

#[test]
fn cli_validate_accepts_good_args() {
    assert!(full_args().validate(true, true).is_ok());
}

#[test]
fn cli_validate_rejects_each_bad_field() {
    let mut a = full_args();
    a.host = Some("b!d".to_string());
    match a.validate(true, true) {
        Err(LauncherError::InvalidInput(m)) => {
            assert_eq!(m, "Invalid character in hostname: '!'");
        },
        _ => panic!("expected the hostname's own error"),
    }

    let mut a = full_args();
    a.port = Some(0);
    match a.validate(true, true) {
        Err(LauncherError::InvalidInput(m)) => {
            assert_eq!(m, "Port 0 is out of valid range (1-65535)");
        },
        _ => panic!("expected the port's own error"),
    }

    let mut a = full_args();
    a.name = Some("ab".to_string());
    match a.validate(true, true) {
        Err(LauncherError::InvalidInput(m)) => {
            assert_eq!(m, "Player name must be at least 3 characters");
        },
        _ => panic!("expected the player name's own error"),
    }

    let a = full_args();
    match a.validate(false, true) {
        Err(LauncherError::NotFound(m)) => {
            assert_eq!(m, "Path does not exist: /games/gta");
        },
        _ => panic!("expected the game path's own error"),
    }
    match a.validate(true, false) {
        Err(LauncherError::NotFound(m)) => {
            assert_eq!(m, "GTA San Andreas executable not found at: /games/gta/gta_sa.exe");
        },
        _ => panic!("expected NotFound"),
    }
}

#[test]
fn cli_validate_reports_first_failing_field() {
    let mut a = full_args();
    a.host = Some("b!d".to_string());
    a.port = Some(0);
    match a.validate(true, true) {
        Err(LauncherError::InvalidInput(m)) => {
            assert_eq!(m, "Invalid character in hostname: '!'");
        },
        _ => panic!("the hostname check comes first"),
    }
}

#[test]
fn cli_validate_allows_absent_fields() {
    let a = CliArgs {
        help: true,
        host: None,
        port: None,
        password: None,
        name: None,
        gamepath: None,
        no_omp: false,
    };
    assert!(a.validate(false, false).is_ok());
    assert!(!a.has_game_launch_args());
    assert_eq!(a.get_password(), "");
}

#[test]
fn cli_launch_args_need_all_four_fields() {
    assert!(full_args().has_game_launch_args());
    let mut a = full_args();
    a.gamepath = None;
    assert!(!a.has_game_launch_args());
}

#[test]
fn cli_password_is_sanitized() {
    assert_eq!(full_args().get_password(), "hunter2");
}
