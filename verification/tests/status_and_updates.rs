use signature_patcher::pattern::select_rule;
use signature_patcher::text::{push_decimal, push_hex};
use signature_patcher::updates::{FetchOutcome, UpdateCheck, UpdateStep, FETCH_TIMEOUT_SECONDS};
use signature_patcher::{AppStatus, WinBuild};

fn patched_module(build: u32) -> Vec<u8> {
    let rule = select_rule(build).unwrap();
    let mut image = vec![0u8; 100];
    image[30..30 + rule.replace.len()].copy_from_slice(rule.replace);
    image
}

#[test]
fn status_with_a_patched_module() {
    let build = WinBuild::new(26100);
    let module = patched_module(26100);
    let status = AppStatus::assess(Some(&build), Some(&module));
    assert_eq!(
        status,
        AppStatus {
            is_active: true,
            os_build: "Windows (Build 26100)".to_string(),
            persistence_enabled: false,
            defender_excluded: false,
        }
    );
}

#[test]
fn status_with_an_unpatched_module() {
    let build = WinBuild::new(19045);
    let rule = select_rule(19045).unwrap();
    let status = AppStatus::assess(Some(&build), Some(rule.search));
    assert!(!status.is_active);
    assert_eq!(status.os_build, "Windows (Build 19045)");
}

#[test]
fn status_with_an_unreadable_module() {
    let build = WinBuild::new(19045);
    let status = AppStatus::assess(Some(&build), None);
    assert!(!status.is_active);
    assert_eq!(status.os_build, "Windows (Build 19045)");
    assert!(!status.persistence_enabled);
    assert!(!status.defender_excluded);
}

#[test]
fn status_with_an_unknown_build() {
    let module = patched_module(26100);
    let status = AppStatus::assess(None, Some(&module));
    assert_eq!(
        status,
        AppStatus {
            is_active: false,
            os_build: "Windows (Unknown)".to_string(),
            persistence_enabled: false,
            defender_excluded: false,
        }
    );
    assert_eq!(AppStatus::assess(None, None), status);
}

#[test]
fn status_shows_the_name_of_the_build_as_given() {
    let build = WinBuild { build_number: 26100, display_name: "Some name".to_string() };
    let status = AppStatus::assess(Some(&build), Some(&patched_module(26100)));
    assert!(status.is_active);
    assert_eq!(status.os_build, "Some name");
}

#[test]
fn first_mirror_that_answers_ends_the_check() {
    let check = UpdateCheck::begin();
    assert_eq!(
        check.mirror(),
        "https://raw.githubusercontent.com/malnwaihi/RDP-MultiSession-Enabler/main/termsrv_offsets.json"
    );
    match check.fetched(FetchOutcome::Body { length: 1234 }) {
        UpdateStep::Found(text) => assert_eq!(
            text,
            "Fetched correctly from https://raw.githubusercontent.com/malnwaihi/\
             RDP-MultiSession-Enabler/main/termsrv_offsets.json: 1234 bytes"
        ),
        _ => panic!("the check did not end with the first answer"),
    }
}

#[test]
fn mirrors_are_asked_in_order() {
    let check = UpdateCheck::begin();
    let check = match check.fetched(FetchOutcome::Unreachable) {
        UpdateStep::Ask(next) => next,
        _ => panic!("the second mirror was not asked"),
    };
    assert_eq!(
        check.mirror(),
        "https://ghp.ci/https://raw.githubusercontent.com/malnwaihi/RDP-MultiSession-Enabler/main/termsrv_offsets.json"
    );
    let check = match check.fetched(FetchOutcome::Refused) {
        UpdateStep::Ask(next) => next,
        _ => panic!("the third mirror was not asked"),
    };
    assert_eq!(
        check.mirror(),
        "https://mirror.ghproxy.com/https://raw.githubusercontent.com/malnwaihi/RDP-MultiSession-Enabler/main/termsrv_offsets.json"
    );
    match check.fetched(FetchOutcome::Body { length: 0 }) {
        UpdateStep::Found(text) => assert_eq!(
            text,
            "Fetched correctly from https://mirror.ghproxy.com/https://raw.githubusercontent.com/\
             malnwaihi/RDP-MultiSession-Enabler/main/termsrv_offsets.json: 0 bytes"
        ),
        _ => panic!("the check did not end with the answer"),
    }
}

#[test]
fn check_gives_up_after_the_last_mirror() {
    let mut check = UpdateCheck::begin();
    let mut asked = 1;
    loop {
        match check.fetched(FetchOutcome::Unreadable) {
            UpdateStep::Ask(next) => {
                check = next;
                asked += 1;
            }
            UpdateStep::GaveUp(text) => {
                assert_eq!(text, "Failed to fetch updates from all mirrors.");
                break;
            }
            UpdateStep::Found(_) => panic!("nothing was fetched"),
        }
    }
    assert_eq!(asked, 3);
    assert_eq!(FETCH_TIMEOUT_SECONDS, 10);
}

#[test]
fn decimal_text_of_numbers() {
    for (number, shown) in [
        (0u64, "0"),
        (7, "7"),
        (10, "10"),
        (109, "109"),
        (26100, "26100"),
        (u64::MAX, "18446744073709551615"),
    ] {
        let mut text = String::from("n=");
        push_decimal(&mut text, number);
        assert_eq!(text, format!("n={}", shown));
    }
}

#[test]
fn hex_text_of_numbers() {
    for (number, shown) in [
        (0u64, "0"),
        (9, "9"),
        (10, "A"),
        (15, "F"),
        (16, "10"),
        (0x64, "64"),
        (0xABCDEF, "ABCDEF"),
        (u64::MAX, "FFFFFFFFFFFFFFFF"),
    ] {
        let mut text = String::from("0x");
        push_hex(&mut text, number);
        assert_eq!(text, format!("0x{}", shown));
    }
}
