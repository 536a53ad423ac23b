use ime_text_store::adapter::{lock_mode_from_flags, DocumentAdapter, LockMode, Rect, Status};
use ime_text_store::content::{Selection, TextChange};
use ime_text_store::error::TsError;

fn units(s: &str) -> Vec<u16> {
    s.encode_utf16().collect()
}

fn adapter_with(s: &str) -> DocumentAdapter {
    let mut a = DocumentAdapter::new();
    a.set_text(0, 0, &units(s)).unwrap();
    a
}

#[test]
fn get_text_reads_exact_slice() {
    let a = adapter_with("hello world");
    let run = a.get_text(2, 9, 100).unwrap();
    assert_eq!(run.units, units("llo wor"));
    assert_eq!(run.next, 9);
}

#[test]
fn get_text_is_capped_by_max_chars() {
    let a = adapter_with("hello world");
    let run = a.get_text(3, 10, 4).unwrap();
    assert_eq!(run.units, units("lo w"));
    assert_eq!(run.next, 7);
}

#[test]
fn get_text_minus_one_reads_to_end() {
    let a = adapter_with("hello world");
    let run = a.get_text(6, -1, 50).unwrap();
    assert_eq!(run.units, units("world"));
    assert_eq!(run.next, 11);
}

#[test]
fn get_text_with_zero_max_chars_is_empty() {
    let a = adapter_with("abc");
    let run = a.get_text(1, 3, 0).unwrap();
    assert!(run.units.is_empty());
    assert_eq!(run.next, 1);
}

#[test]
fn get_text_on_every_range_of_a_short_text() {
    let text = "a\u{1F600}bc";
    let all = units(text);
    let a = adapter_with(text);
    let len = all.len() as i32;
    for start in 0..=len {
        for end in start..=len {
            for max in 0..=(len as u32 + 1) {
                let run = a.get_text(start, end, max).unwrap();
                let stop = std::cmp::min(end, start + max as i32) as usize;
                assert_eq!(run.units, all[start as usize..stop].to_vec());
                assert_eq!(run.next, start + run.units.len() as i32);
            }
        }
    }
}

#[test]
fn get_text_refuses_malformed_ranges() {
    let a = adapter_with("abc");
    assert_eq!(a.get_text(-1, 2, 5), Err(TsError::InvalidArgument));
    assert_eq!(a.get_text(4, -1, 5), Err(TsError::InvalidArgument));
    assert_eq!(a.get_text(2, 1, 5), Err(TsError::InvalidArgument));
    assert_eq!(a.get_text(0, 4, 5), Err(TsError::InvalidArgument));
    assert_eq!(a.get_text(3, -1, 5).unwrap().units, Vec::<u16>::new());
}

#[test]
fn set_text_replaces_range_and_reports_change() {
    let mut a = adapter_with("hello world");
    let change = a.set_text(6, 11, &units("there, friend")).unwrap();
    assert_eq!(change, TextChange { start: 6, old_end: 11, new_end: 19 });
    assert_eq!(a.content.text, units("hello there, friend"));
}

#[test]
fn set_text_then_get_text_reads_new_units() {
    let mut a = adapter_with("abcdef");
    let new_units = units("XYZW");
    let before = a.content.text.len() as i32;
    a.set_text(1, 3, &new_units).unwrap();
    let run = a.get_text(1, 1 + new_units.len() as i32, new_units.len() as u32).unwrap();
    assert_eq!(run.units, new_units);
    assert_eq!(a.content.text.len() as i32, before + 4 - 2);
    assert_eq!(a.content.text, units("aXYZWdef"));
}

#[test]
fn set_text_deletes_with_empty_replacement() {
    let mut a = adapter_with("abcdef");
    let change = a.set_text(1, 4, &Vec::new()).unwrap();
    assert_eq!(change, TextChange { start: 1, old_end: 4, new_end: 1 });
    assert_eq!(a.content.text, units("aef"));
}

#[test]
fn set_text_refuses_malformed_range_and_keeps_text() {
    let mut a = adapter_with("abc");
    assert_eq!(a.set_text(2, 1, &units("x")), Err(TsError::InvalidArgument));
    assert_eq!(a.set_text(-1, 1, &units("x")), Err(TsError::InvalidArgument));
    assert_eq!(a.set_text(0, 4, &units("x")), Err(TsError::InvalidArgument));
    assert_eq!(a.content.text, units("abc"));
}

#[test]
fn set_text_keeps_selection() {
    let mut a = DocumentAdapter::new();
    a.set_selection(&vec![Selection::new(0, 0)]).unwrap();
    a.set_text(0, 0, &units("abc")).unwrap();
    assert_eq!(a.get_selection(0, 1), Ok(Selection::new(0, 0)));
}

#[test]
fn japanese_text_then_selection_scenario() {
    let mut a = DocumentAdapter::new();
    let initial = a.get_selection(0, 1).unwrap();
    a.set_text(0, 0, &units("日本語")).unwrap();
    let run = a.get_text(0, -1, 10).unwrap();
    assert_eq!(String::from_utf16(&run.units).unwrap(), "日本語");
    assert_eq!(run.next, 3);
    assert_eq!(a.get_selection(0, 1), Ok(initial));
    a.set_selection(&vec![Selection::new(0, 3)]).unwrap();
    let s = a.get_selection(0, 1).unwrap();
    assert_eq!((s.start, s.end), (0, 3));
}

#[test]
fn set_selection_round_trip() {
    let mut a = adapter_with("abcdef");
    let s = Selection::new(2, 5);
    assert_eq!(a.set_selection(&vec![s]), Ok(()));
    assert_eq!(a.get_selection(0, 1), Ok(s));
}

#[test]
fn set_selection_with_wrong_count_fails_and_keeps_selection() {
    let mut a = adapter_with("abcdef");
    a.set_selection(&vec![Selection::new(1, 2)]).unwrap();
    assert_eq!(a.set_selection(&vec![]), Err(TsError::InvalidArgument));
    assert_eq!(
        a.set_selection(&vec![Selection::new(0, 1), Selection::new(3, 4)]),
        Err(TsError::InvalidArgument)
    );
    assert_eq!(a.get_selection(0, 1), Ok(Selection::new(1, 2)));
}

#[test]
fn get_selection_requires_count_one() {
    let a = DocumentAdapter::new();
    assert_eq!(a.get_selection(0, 2), Err(TsError::InvalidArgument));
    assert_eq!(a.get_selection(0, 0), Err(TsError::InvalidArgument));
}

#[test]
fn lock_flags_decode() {
    assert_eq!(lock_mode_from_flags(2), Some(LockMode::Read));
    assert_eq!(lock_mode_from_flags(3), Some(LockMode::Read));
    assert_eq!(lock_mode_from_flags(6), Some(LockMode::ReadWrite));
    assert_eq!(lock_mode_from_flags(7), Some(LockMode::ReadWrite));
    assert_eq!(lock_mode_from_flags(1), None);
    assert_eq!(lock_mode_from_flags(0), None);
}

#[test]
fn request_lock_without_subscribers_notifies_nobody() {
    let a = DocumentAdapter::new();
    let grant = a.request_lock(6);
    assert_eq!(grant.mode, Some(LockMode::ReadWrite));
    assert!(grant.notify.is_empty());
}

#[test]
fn request_lock_notifies_every_subscriber_in_order() {
    let mut a = DocumentAdapter::new();
    a.advise_sink(11);
    a.advise_sink(22);
    a.advise_sink(11);
    let grant = a.request_lock(2);
    assert_eq!(grant.mode, Some(LockMode::Read));
    assert_eq!(grant.notify, vec![11, 22]);
    let none = a.request_lock(0);
    assert_eq!(none.mode, None);
    assert!(none.notify.is_empty());
}

#[test]
fn subscribe_then_unsubscribe_leaves_no_sinks() {
    let mut a = DocumentAdapter::new();
    a.advise_sink(42);
    assert!(a.is_subscribed(42));
    assert_eq!(a.unadvise_sink(42), Ok(()));
    assert!(a.sinks.is_empty());
    assert!(a.request_lock(6).notify.is_empty());
}

#[test]
fn unsubscribe_removes_only_the_matching_sink() {
    let mut a = DocumentAdapter::new();
    a.advise_sink(1);
    a.advise_sink(2);
    a.advise_sink(3);
    assert_eq!(a.unadvise_sink(2), Ok(()));
    assert_eq!(a.sinks, vec![1, 3]);
    assert_eq!(a.unadvise_sink(2), Err(TsError::NotFound));
    assert_eq!(a.sinks, vec![1, 3]);
}

#[test]
fn edit_cookie_is_published_once() {
    let mut a = DocumentAdapter::new();
    assert_eq!(a.edit_cookie(), None);
    assert!(a.publish_edit_cookie(17));
    assert!(!a.publish_edit_cookie(99));
    assert_eq!(a.edit_cookie(), Some(17));
}

#[test]
fn fixed_answers() {
    let a = DocumentAdapter::new();
    assert_eq!(a.get_status(), Status { dynamic_flags: 0, static_flags: 0 });
    assert_eq!(a.get_active_view(), 0);
    assert_eq!(a.get_screen_ext(0), Rect { left: 0, top: 0, right: 100, bottom: 50 });
    assert_eq!(a.get_text_ext(0, 0, 0), Err(TsError::NoLayoutAvailable));
    assert_eq!(a.request_supported_attrs(), Ok(()));
    assert_eq!(a.retrieve_requested_attrs(4), 0);
    assert_eq!(a.unsupported_request(), Err(TsError::NotImplemented));
}

#[test]
fn error_codes_round_trip() {
    let all = [
        TsError::InvalidArgument,
        TsError::NotFound,
        TsError::NoLayoutAvailable,
        TsError::NotImplemented,
        TsError::InternalFailure,
    ];
    for e in all {
        assert!(e.code() < 0);
        assert_eq!(TsError::from_code(e.code()), e);
    }
    assert_eq!(TsError::InvalidArgument.code(), 0x80070057u32 as i32);
    assert_eq!(TsError::NoLayoutAvailable.code(), 0x80040206u32 as i32);
    assert_eq!(TsError::NotImplemented.code(), 0x80004001u32 as i32);
    assert_eq!(TsError::from_code(0x8000FFFFu32 as i32), TsError::InternalFailure);
}
