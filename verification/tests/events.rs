use metrics_controller::controller::EventInfo;
use metrics_controller::events::{
    client_id_json, encode_value, get_client_id, is_encoded, Events, MAX_EVENT_SIZE,
};
use metrics_controller::config::ConfigError;

const CLIENT_ID: &str = "9eccb690-93aa-4513-835a-9a4f0f0e2a71";
const TIMESTAMP: &str = "2016-05-25 22:36:57";

fn sample_events() -> Events {
    let event_info = EventInfo::new(
        "en-us",
        "linux",
        "1.2",
        "RPi/2",
        "iot_app",
        "1.0",
        "default",
        "20160320123456",
        "rust test",
        "arm",
    );
    Events::new(event_info, CLIENT_ID.to_string(), "UA-77033033-1".to_string())
}

fn floating_point_string() -> String {
    let floating_point_string = format!("v=1&t=event&tid=UA-77033033-1&cid=9eccb690-93aa-4513-835a-9a4f0f0e2a71&ec=category&ea=action\
                                &el=label&ev=1.0&an=iot_app&av=1.0&ul=en-us&cd1=linux&cd2=1.2&cd3=RPi%2F2&cd4=arm&cd5=rust%20test&cd6=20160320123456\
                                &cd7=2016-05-25%2022:36:57");
    floating_point_string
}

#[test]
fn should_insert_an_event() {
    let mut ev = sample_events();
    assert_eq!(ev.insert_event("category", "action", "label", 1), true);
    assert_eq!(ev.is_empty(), false);
    let body = ev.get_events_as_body();
    assert_eq!(body.lines().count(), 1);
    assert_eq!(ev.is_empty(), true);
}

#[test]
fn should_format_an_event_properly() {
    let formatted_event = "v=1&t=event&tid=UA-77033033-1&cid=9eccb690-93aa-4513-835a-9a4f0f0e2a71&ec=category&ea=action\
                           &el=label&ev=1&an=iot_app&av=1.0&ul=en-us&cd1=linux&cd2=1.2&cd3=RPi%2F2&cd4=arm&cd5=rust%20test&cd6=20160320123456\
                           &cd7=2016-05-25%2022:36:57";
    let ev = sample_events();
    let line = ev.encode_event("category", "action", "label", 1, TIMESTAMP);
    assert_eq!(formatted_event, line);
}

#[test]
fn should_return_true_if_there_are_more_than_max_event_size() {
    let mut ev = sample_events();
    for _ in 0..21 {
        ev.insert_event("category", "action", "label", 1);
    }
    assert_eq!(ev.is_time_to_send(), true);
}

#[test]
fn should_return_true_if_there_are_exactly_max_event_size() {
    let mut ev = sample_events();
    for _ in 0..20 {
        ev.insert_event("category", "action", "label", 1);
    }
    assert_eq!(ev.is_time_to_send(), true);
}

#[test]
fn should_return_false_if_there_are_less_than_max_event_size() {
    let mut ev = sample_events();
    for _ in 0..19 {
        ev.insert_event("category", "action", "label", 1);
    }
    assert_eq!(ev.is_time_to_send(), false);
}

#[test]
fn is_empty_should_return_false_if_there_are_events() {
    let mut ev = sample_events();
    for _ in 0..19 {
        ev.insert_event("category", "action", "label", 1);
    }
    assert_eq!(ev.is_empty(), false);
}

#[test]
fn is_empty_should_return_true_if_storage_is_empty() {
    let mut ev = sample_events();
    assert_eq!(ev.is_empty(), true);
}

#[test]
fn should_format_the_body_correctly_for_one_event() {
    let formatted_body = "v=1&t=event&tid=UA-77033033-1&cid=9eccb690-93aa-4513-835a-9a4f0f0e2a71&ec=category&ea=action\
                          &el=label&ev=1&an=iot_app&av=1.0&ul=en-us&cd1=linux&cd2=1.2&cd3=RPi%2F2&cd4=arm&cd5=rust%20test&cd6=20160320123456\
                          &cd7=2016-05-25%2022:36:57";
    let mut ev = sample_events();
    ev.insert_event_at("category", "action", "label", 1, TIMESTAMP);
    let body = ev.get_events_as_body();
    assert_eq!(body, formatted_body);
}

#[test]
fn should_format_the_body_correctly_for_multiple_events() {
    let formatted_body = "v=1&t=event&tid=UA-77033033-1&cid=9eccb690-93aa-4513-835a-9a4f0f0e2a71&ec=category&ea=action\
                              &el=label&ev=1&an=iot_app&av=1.0&ul=en-us&cd1=linux&cd2=1.2&cd3=RPi%2F2&cd4=arm&cd5=rust%20test\
                              &cd6=20160320123456&cd7=2016-05-25%2022:36:57\n\
                          v=1&t=event&tid=UA-77033033-1&cid=9eccb690-93aa-4513-835a-9a4f0f0e2a71&ec=category&ea=action\
                              &el=label&ev=1&an=iot_app&av=1.0&ul=en-us&cd1=linux&cd2=1.2&cd3=RPi%2F2\
                              &cd4=arm&cd5=rust%20test&cd6=20160320123456&cd7=2016-05-25%2022:36:57";
    let mut ev = sample_events();
    ev.insert_event_at("category", "action", "label", 1, TIMESTAMP);
    ev.insert_event_at("category", "action", "label", 1, TIMESTAMP);
    let body = ev.get_events_as_body();
    assert_eq!(body, formatted_body);
}

#[test]
fn should_format_the_body_correctly_for_one_floating_point_event() {
    let mut ev = sample_events();
    assert_eq!(
        ev.insert_floating_point_event_at("category", "action", "label", "1.0", TIMESTAMP),
        true
    );
    let body = ev.get_events_as_body();
    assert_eq!(body, floating_point_string());
}

#[test]
fn floating_point_event_under_the_present_time() {
    let mut ev = sample_events();
    assert_eq!(ev.insert_floating_point_event("category", "action", "label", "999999.9"), true);
    let body = ev.get_events_as_body();
    assert!(body.starts_with(
        "v=1&t=event&tid=UA-77033033-1&cid=9eccb690-93aa-4513-835a-9a4f0f0e2a71&ec=category&ea=action&el=label&ev=999999.9&an=iot_app"
    ));
    assert!(!body.contains("&cd8="));
    assert!(!body.contains('\n'));
    let stamp = body.rsplit("&cd7=").next().unwrap();
    assert_eq!(stamp.len(), "2016-05-25%2022:36:57".len());
}

#[test]
fn event_under_the_present_time_carries_an_encoded_timestamp() {
    let mut ev = sample_events();
    ev.insert_event("event category", "event action", "event label", 999999);
    let body = ev.get_events_as_body();
    assert!(body.starts_with(
        "v=1&t=event&tid=UA-77033033-1&cid=9eccb690-93aa-4513-835a-9a4f0f0e2a71&ec=event%20category&ea=event%20action&el=event%20label&ev=999999&an=iot_app&av=1.0&ul=en-us&cd1=linux&cd2=1.2&cd3=RPi%2F2&cd4=arm&cd5=rust%20test&cd6=20160320123456&cd7=20"
    ));
    let stamp = body.rsplit("&cd7=").next().unwrap();
    assert_eq!(stamp.len(), "2016-05-25%2022:36:57".len());
    assert_eq!(&stamp[10..13], "%20");
}

fn numbered_events(count: u64) -> Events {
    let mut ev = sample_events();
    for i in 0..count {
        ev.insert_event_at("category", "action", "label", i, TIMESTAMP);
    }
    ev
}

fn values_of(body: &str) -> Vec<u64> {
    body.lines()
        .map(|line| {
            let rest = line.split("&ev=").nth(1).unwrap();
            rest.split('&').next().unwrap().parse::<u64>().unwrap()
        })
        .collect()
}

#[test]
fn drain_of_a_short_store_takes_everything_in_order() {
    let mut ev = numbered_events(7);
    let body = ev.get_events_as_body();
    assert_eq!(values_of(&body), vec![0, 1, 2, 3, 4, 5, 6]);
    assert_eq!(ev.is_empty(), true);
    assert_eq!(ev.get_events_as_body(), "");
}

#[test]
fn drain_of_an_empty_store_is_an_empty_body() {
    let mut ev = sample_events();
    assert_eq!(ev.get_events_as_body(), "");
    assert_eq!(ev.is_empty(), true);
}

#[test]
fn drain_takes_twenty_and_leaves_the_remainder() {
    let mut ev = numbered_events(25);
    assert_eq!(ev.is_time_to_send(), true);
    let body = ev.get_events_as_body();
    assert_eq!(values_of(&body), (0..20).collect::<Vec<u64>>());
    assert_eq!(body.matches('\n').count(), 19);
    assert!(!body.ends_with('\n'));
    assert_eq!(ev.is_time_to_send(), false);
    assert_eq!(ev.is_empty(), false);
    let rest = ev.get_events_as_body();
    assert_eq!(values_of(&rest), vec![20, 21, 22, 23, 24]);
    assert_eq!(ev.is_empty(), true);
}

#[test]
fn drain_of_exactly_one_batch_empties_the_store() {
    let mut ev = numbered_events(MAX_EVENT_SIZE as u64);
    let body = ev.get_events_as_body();
    assert_eq!(values_of(&body).len(), 20);
    assert_eq!(ev.is_empty(), true);
}

#[test]
fn drain_of_forty_five_leaves_twenty_five() {
    let mut ev = numbered_events(45);
    let first = ev.get_events_as_body();
    assert_eq!(values_of(&first), (0..20).collect::<Vec<u64>>());
    assert_eq!(ev.is_time_to_send(), true);
    let second = ev.get_events_as_body();
    assert_eq!(values_of(&second), (20..40).collect::<Vec<u64>>());
    assert_eq!(ev.is_time_to_send(), false);
    let third = ev.get_events_as_body();
    assert_eq!(values_of(&third), vec![40, 41, 42, 43, 44]);
}

#[test]
fn time_to_send_flips_at_twenty() {
    let mut ev = sample_events();
    for count in 1..=22u64 {
        ev.insert_event_at("category", "action", "label", count, TIMESTAMP);
        assert_eq!(ev.is_time_to_send(), count >= 20);
    }
    ev.get_events_as_body();
    assert_eq!(ev.is_time_to_send(), false);
}

#[test]
fn encode_value_escapes_the_five_extra_characters() {
    assert_eq!(encode_value(" "), "%20");
    assert_eq!(encode_value("!"), "%21");
    assert_eq!(encode_value("$"), "%24");
    assert_eq!(encode_value(")"), "%29");
    assert_eq!(encode_value("/"), "%2F");
    assert_eq!(encode_value("a b!c$d)e/f"), "a%20b%21c%24d%29e%2Ff");
}

#[test]
fn encode_value_leaves_other_printable_ascii_alone() {
    let plain = "\"#%&'(*+,-.0123456789:;<=>?@ABCXYZ[\\]^_`abcxyz{|}~";
    assert_eq!(encode_value(plain), plain);
    assert_eq!(encode_value(""), "");
    assert_eq!(encode_value("label"), "label");
}

#[test]
fn encode_value_escapes_controls_and_everything_from_del_up() {
    assert_eq!(encode_value("\u{0}"), "%00");
    assert_eq!(encode_value("\t"), "%09");
    assert_eq!(encode_value("a\nb"), "a%0Ab");
    assert_eq!(encode_value("\u{1f}"), "%1F");
    assert_eq!(encode_value("\u{7f}"), "%7F");
    assert_eq!(encode_value("é"), "%C3%A9");
    assert_eq!(encode_value("日本"), "%E6%97%A5%E6%9C%AC");
    assert_eq!(encode_value("\u{10ffff}"), "%F4%8F%BF%BF");
}

#[test]
fn is_encoded_names_the_encode_set() {
    for byte in 0..=255u8 {
        let expected = byte < 0x20
            || byte > 0x7E
            || byte == b' '
            || byte == b'!'
            || byte == b'$'
            || byte == b')'
            || byte == b'/';
        assert_eq!(is_encoded(byte), expected);
    }
}

#[test]
fn device_is_escaped_and_label_is_not() {
    let ev = sample_events();
    let line = ev.encode_event("category", "action", "label", 1, TIMESTAMP);
    assert!(line.contains("&el=label&"));
    assert!(line.contains("&cd3=RPi%2F2&"));
}

#[test]
fn largest_value_is_written_in_full() {
    let ev = sample_events();
    let line = ev.encode_event("c", "a", "l", u64::MAX, TIMESTAMP);
    assert!(line.contains("&ev=18446744073709551615&an="));
}

#[test]
fn client_id_document_names_the_id() {
    assert_eq!(client_id_json("123456"), "{\"cid\":\"123456\"}");
}

#[test]
fn a_new_client_id_comes_with_its_document() {
    let id = get_client_id(None).unwrap();
    assert_eq!(id.cid.len(), 36);
    for (i, byte) in id.cid.bytes().enumerate() {
        if i == 8 || i == 13 || i == 18 || i == 23 {
            assert_eq!(byte, b'-');
        } else {
            assert!(matches!(byte, b'0'..=b'9' | b'a'..=b'f'));
        }
    }
    assert_eq!(id.cid.as_bytes()[14], b'4');
    assert_eq!(id.to_store, Some(format!("{{\"cid\":\"{}\"}}", id.cid)));
    let again = get_client_id(None).unwrap();
    assert_ne!(id.cid, again.cid);
}

#[test]
fn a_stored_client_id_is_used_again() {
    let first = get_client_id(None).unwrap();
    let document = first.to_store.unwrap();
    let second = get_client_id(Some(&document)).unwrap();
    assert_eq!(second.cid, first.cid);
    assert_eq!(second.to_store, None);
}

#[test]
fn a_document_without_a_client_id_is_an_error() {
    assert_eq!(get_client_id(Some("{}")).err(), Some(ConfigError::NotFound));
    assert_eq!(get_client_id(Some("{\"cid\": 5}")).err(), Some(ConfigError::NotAString));
    assert_eq!(get_client_id(Some("not json")).err(), Some(ConfigError::NotParsed));
    assert_eq!(get_client_id(Some("[1, 2]")).err(), Some(ConfigError::NotParsed));
}

#[test]
fn a_floating_point_event_keeps_the_documented_fields() {
    let ev = sample_events();
    let whole = ev.encode_event("category", "action", "label", 7, TIMESTAMP);
    let floating = ev.encode_floating_point_event("category", "action", "label", "7.5", TIMESTAMP);
    assert_eq!(floating, whole.replace("&ev=7&", "&ev=7.5&"));
    assert!(floating.ends_with("&cd7=2016-05-25%2022:36:57"));
}

#[test]
fn a_floating_point_value_is_encoded_like_every_other_text() {
    let ev = sample_events();
    for number in ["-0.25", "1e21", "1.7976931348623157e308", "inf", "NaN"] {
        let line = ev.encode_floating_point_event("c", "a", "l", number, TIMESTAMP);
        assert!(line.contains(&format!("&ev={}&an=", number)));
    }
    let line = ev.encode_floating_point_event("c", "a", "l", "1&x=2\n3 4", TIMESTAMP);
    assert!(line.contains("&ev=1&x=2%0A3%204&an="));
    assert!(!line.contains('\n'));
}

#[test]
fn a_floating_point_number_is_written_by_its_caller() {
    let ev = sample_events();
    let line = ev.encode_floating_point_event("c", "a", "l", &format!("{}", 999999.9f64), TIMESTAMP);
    assert!(line.contains("&ev=999999.9&an="));
}

#[test]
fn a_body_of_one_line_is_that_line() {
    let mut ev = sample_events();
    ev.insert_event_at("category", "action", "label", 1, TIMESTAMP);
    let line = ev.encode_event("category", "action", "label", 1, TIMESTAMP);
    assert_eq!(ev.get_events_as_body(), line);
}

#[test]
fn a_body_joins_its_lines_with_line_feeds() {
    let mut ev = sample_events();
    ev.insert_event_at("category", "action", "label", 1, TIMESTAMP);
    ev.insert_event_at("category", "action", "label", 2, TIMESTAMP);
    ev.insert_event_at("category", "action", "label", 3, TIMESTAMP);
    let lines: Vec<String> = (1..=3u64)
        .map(|value| ev.encode_event("category", "action", "label", value, TIMESTAMP))
        .collect();
    assert_eq!(ev.get_events_as_body(), lines.join("\n"));
}
