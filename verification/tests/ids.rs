use gp_network::bytes::{random_id, random_nonce};
use gp_network::text::{
    mailbox_id, mailbox_url, mailbox_url_for, mailbox_url_v3, mailbox_url_v3_for, short_mailbox,
    witness_read_url,
};

#[test]
fn mailbox_url_for_an_id_is_its_hex_on_the_relay() {
    let mut id = [0u8; 32];
    for (i, byte) in id.iter_mut().enumerate() {
        *byte = (i as u8) * 8 + 0x0a;
    }
    let hex: String = id.iter().map(|b| format!("{b:02x}")).collect();
    assert_eq!(
        mailbox_url_for("https://relay.invalid//", &id),
        format!("https://relay.invalid/v1/mailboxes/{hex}")
    );
    assert_eq!(
        mailbox_url_v3_for("https://relay.invalid", &id),
        format!("https://relay.invalid/v3/mailboxes/{hex}")
    );
    assert_eq!(mailbox_url_for("", &[0xff; 32]), format!("/v1/mailboxes/{}", "ff".repeat(32)));
}

#[test]
fn fresh_mailboxes_carry_an_accepted_random_opaque_id() {
    let v1 = mailbox_url("https://relay.invalid/").unwrap();
    let prefix = "https://relay.invalid/v1/mailboxes/";
    assert!(v1.starts_with(prefix));
    let id = &v1[prefix.len()..];
    assert_eq!(id.len(), 64);
    assert!(id.chars().all(|c| c.is_ascii_digit() || ('a'..='f').contains(&c)));
    assert_eq!(mailbox_id(&v1), Ok(id.to_string()));

    let v3 = mailbox_url_v3("https://relay.invalid").unwrap();
    let prefix = "https://relay.invalid/v3/mailboxes/";
    assert!(v3.starts_with(prefix));
    assert_eq!(mailbox_id(&v3), Ok(v3[prefix.len()..].to_string()));
    assert_ne!(mailbox_url_v3("https://relay.invalid").unwrap(), v3);
}

#[test]
fn random_ids_and_nonces_differ_between_calls() {
    assert_ne!(random_id().unwrap(), random_id().unwrap());
    assert_ne!(random_nonce().unwrap(), random_nonce().unwrap());
}

#[test]
fn witness_reads_go_to_the_configuration_read_path() {
    let id = [0x0f; 32];
    let hex = "0f".repeat(32);
    assert_eq!(
        witness_read_url("https://witness-1.invalid/", &id),
        format!("https://witness-1.invalid/v3/witness/configs/{hex}/read")
    );
    assert_eq!(
        witness_read_url("https://witness-1.invalid/custom/read", &id),
        "https://witness-1.invalid/custom/read"
    );
    assert_eq!(witness_read_url("/read", &id), "/read");
    assert_eq!(witness_read_url("rea", &id), format!("rea/v3/witness/configs/{hex}/read"));
}

#[test]
fn short_mailbox_shows_the_first_ten_bytes_of_the_id() {
    let id = "0123456789abcdef".repeat(4);
    assert_eq!(short_mailbox(&format!("https://relay.invalid/v1/mailboxes/{id}/")), "0123456789…");
    assert_eq!(short_mailbox("https://relay.invalid/v1/mailboxes/short"), "invalid");
    assert_eq!(short_mailbox(""), "invalid");
    let wide = format!("ééééé{}", "x".repeat(30));
    assert_eq!(short_mailbox(&format!("https://relay.invalid/{wide}")), "ééééé…");
}
