use sip_server::components::dialog_gen::{call_id_from, tag_from};
use sip_server::{DialogGen, FreshIds};

fn is_hex(text: &str) -> bool {
    !text.is_empty()
        && text.len() <= 16
        && text.chars().all(|c| c.is_ascii_digit() || ('a'..='f').contains(&c))
}

#[test]
fn call_id_is_made_of_two_numbers() {
    assert_eq!(call_id_from(0, 0), "0-0");
    assert_eq!(call_id_from(255, 16), "ff-10");
    assert_eq!(call_id_from(u64::MAX, 1), "ffffffffffffffff-1");
}

#[test]
fn tag_is_made_of_one_number() {
    assert_eq!(tag_from(0), "0");
    assert_eq!(tag_from(0xabc), "abc");
}

#[test]
fn generated_call_id_has_two_hex_parts() {
    let gen = DialogGen::new();
    for _ in 0..20 {
        let call_id = gen.call_id().unwrap();
        let parts: Vec<&str> = call_id.split('-').collect();
        assert_eq!(parts.len(), 2, "{}", call_id);
        assert!(is_hex(parts[0]), "{}", call_id);
        assert!(is_hex(parts[1]), "{}", call_id);
    }
}

#[test]
fn generated_tag_is_hex() {
    let gen = DialogGen::new();
    for _ in 0..20 {
        let tag = gen.tag().unwrap();
        assert!(is_hex(&tag), "{}", tag);
    }
}

#[test]
fn generated_tags_are_not_all_the_same() {
    let gen = DialogGen::new();
    let first = gen.tag().unwrap();
    let mut differs = false;
    for _ in 0..8 {
        if gen.tag().unwrap() != first {
            differs = true;
        }
    }
    assert!(differs);
}

#[test]
fn fresh_identifiers_are_two_tags_and_a_call_id() {
    let gen = DialogGen::new();
    let fresh = FreshIds::generate(&gen).unwrap();
    assert!(is_hex(&fresh.incoming_server_tag));
    assert!(is_hex(&fresh.new_server_tag));
    let parts: Vec<&str> = fresh.new_call_id.split('-').collect();
    assert_eq!(parts.len(), 2);
    assert!(is_hex(parts[0]));
    assert!(is_hex(parts[1]));
    assert_ne!(fresh.incoming_server_tag, fresh.new_server_tag);
}
