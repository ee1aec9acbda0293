use bpfx::error::Error;
use bpfx::ip::IpAddr;
use bpfx::text;

fn v6(groups: [u16; 8]) -> String {
    let mut octets = [0u8; 16];
    for (i, group) in groups.iter().enumerate() {
        octets[2 * i] = (group >> 8) as u8;
        octets[2 * i + 1] = (group & 0xff) as u8;
    }
    IpAddr::V6(octets).to_string()
}

#[test]
fn v4_addresses() {
    assert_eq!(IpAddr::V4([0, 0, 0, 0]).to_string(), "0.0.0.0");
    assert_eq!(IpAddr::V4([192, 168, 1, 255]).to_string(), "192.168.1.255");
}

#[test]
fn v6_addresses() {
    assert_eq!(v6([0; 8]), "::");
    assert_eq!(v6([0, 0, 0, 0, 0, 0, 0, 1]), "::1");
    assert_eq!(v6([1, 0, 0, 0, 0, 0, 0, 0]), "1::");
    assert_eq!(v6([0x2001, 0xdb8, 0, 0, 0, 0, 0, 0xabcd]), "2001:db8::abcd");
    assert_eq!(v6([0x2001, 0xdb8, 0, 1, 1, 1, 1, 1]), "2001:db8:0:1:1:1:1:1");
    assert_eq!(v6([1, 0, 0, 2, 0, 0, 0, 3]), "1:0:0:2::3");
    assert_eq!(v6([1, 0, 0, 2, 0, 0, 3, 4]), "1::2:0:0:3:4");
    assert_eq!(v6([1, 2, 3, 4, 5, 6, 7, 8]), "1:2:3:4:5:6:7:8");
    assert_eq!(v6([0xffff; 8]), "ffff:ffff:ffff:ffff:ffff:ffff:ffff:ffff");
    assert_eq!(v6([0, 0, 0, 0, 0, 0xffff, 0x7f00, 1]), "::ffff:127.0.0.1");
    assert_eq!(v6([0, 0, 0, 0, 0, 0, 0x7f00, 1]), "::7f00:1");
}

#[test]
fn numerals() {
    let mut out = String::from("n=");
    text::push_dec(&mut out, 0);
    out.push(' ');
    text::push_dec(&mut out, u64::MAX);
    out.push(' ');
    text::push_signed(&mut out, i64::MIN);
    out.push(' ');
    text::push_signed(&mut out, 7);
    out.push(' ');
    text::push_hex(&mut out, 0);
    out.push(' ');
    text::push_hex(&mut out, u64::MAX);
    assert_eq!(
        out,
        "n=0 18446744073709551615 -9223372036854775808 7 0x0 0xffffffffffffffff"
    );
}

#[test]
fn joined_words() {
    assert_eq!(text::join(&vec![], "|"), "");
    assert_eq!(text::join(&vec!["a"], "|"), "a");
    assert_eq!(text::join(&vec!["a", "", "b"], ", "), "a, , b");
}

#[test]
fn name_fields() {
    assert_eq!(text::field_text(b"cat\0garbage"), "cat");
    assert_eq!(text::field_text(b"full"), "full");
    assert_eq!(text::field_text(b"\0x"), "");
    assert_eq!(text::field_text(b""), "");
    assert_eq!(text::field_text("gr\u{fc}n\0".as_bytes()), "gr\u{fc}n");
    assert_eq!(text::field_text(b"a\xffb\0"), "a\u{fffd}b");
    assert_eq!(text::field_text(b"a\xe2\x82\0"), "a\u{fffd}");
}

#[test]
fn error_texts() {
    let said = || String::from("said so");
    assert_eq!(Error::Btf(said()).to_string(), "said so");
    assert_eq!(Error::Load(said()).to_string(), "failed to load eBPF program");
    assert_eq!(Error::Attach(said()).to_string(), "failed to attach eBPF program");
    assert_eq!(Error::Io(said()).to_string(), "said so");
    assert_eq!(Error::MapAccess(said()).to_string(), "said so");
    assert_eq!(Error::Unsupported.to_string(), "unsupported kernel feature");
    assert_eq!(Error::InvalidFilter.to_string(), "invalid filter");
    assert_eq!(Error::ProgramAccess.to_string(), "failed to retrieve eBPF program");
    assert_eq!(Error::NoActiveSubscriptions.to_string(), "no active event subscriptions remain");
    assert_eq!(Error::FilterMapAccess.to_string(), "failed to access FILTER map");
    assert_eq!(Error::ConfigMapAccess.to_string(), "failed to access CONFIG map");
    assert_eq!(Error::EventsMapAccess.to_string(), "failed to access EVENTS ring buffer");
}
