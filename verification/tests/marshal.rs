//! Marshalling of strings and call arguments for the native boundary.

use pulse_binding::context::{Context, NOAUTOSPAWN, NOFAIL, NOFLAGS};
use pulse_binding::ctext::{marshal_keys, CText};
use pulse_binding::stream::{new_extended_request, new_stream_request, Stream};

#[test]
fn ctext_appends_terminator() {
    let c = CText::new(b"sink").expect("no embedded null");
    assert_eq!(c.as_bytes().as_slice(), b"sink\0");
    assert_eq!(c.len(), 5);
}

#[test]
fn ctext_empty_input_is_bare_terminator() {
    let c = CText::new(b"").expect("no embedded null");
    assert_eq!(c.as_bytes().as_slice(), b"\0");
}

#[test]
fn ctext_rejects_embedded_null() {
    assert!(CText::new(b"si\0nk").is_none());
    assert!(CText::new(b"\0").is_none());
}

#[test]
fn marshal_keys_keeps_order_and_terminates_each() {
    let keys = vec![b"media.role".to_vec(), b"app.name".to_vec()];
    let out = marshal_keys(&keys).expect("no embedded null");
    assert_eq!(out.len(), 2);
    assert_eq!(out[0].as_bytes().as_slice(), b"media.role\0");
    assert_eq!(out[1].as_bytes().as_slice(), b"app.name\0");
}

#[test]
fn marshal_keys_rejects_any_embedded_null() {
    let keys = vec![b"fine".to_vec(), b"bro\0ken".to_vec()];
    assert!(marshal_keys(&keys).is_none());
}

#[test]
fn marshal_keys_of_nothing_is_nothing() {
    let keys: Vec<Vec<u8>> = vec![];
    let out = marshal_keys(&keys).expect("nothing to reject");
    assert_eq!(out.len(), 0);
}

#[test]
fn connect_request_default_server_passes_null() {
    let c = Context::new(1).expect("non-null");
    let req = c.connect_request(None, NOFLAGS, false).expect("no name given");
    assert!(req.server.is_none());
    assert_eq!(req.flags, NOFLAGS);
    assert!(!req.api_given);
}

#[test]
fn connect_request_marshals_server_name() {
    let c = Context::new(1).expect("non-null");
    let name = b"tcp:host".to_vec();
    let req = c.connect_request(Some(&name), NOFAIL, true).expect("clean name");
    let s = req.server.expect("a name was given");
    assert_eq!(s.as_bytes().as_slice(), b"tcp:host\0");
    assert_eq!(req.flags, NOFAIL);
    assert!(req.api_given);
}

#[test]
fn connect_request_rejects_embedded_null() {
    let c = Context::new(1).expect("non-null");
    let name = b"bad\0name".to_vec();
    assert!(c.connect_request(Some(&name), NOFLAGS, false).is_none());
}

#[test]
fn connect_request_spawn_decision() {
    let c = Context::new(1).expect("non-null");
    // no server named, autospawn not disabled: the call may forward a spawn request
    let req = c.connect_request(None, NOFLAGS, false).expect("clean");
    assert!(req.forwards_spawn());
    // autospawn disabled by the flags
    let req = c.connect_request(None, NOAUTOSPAWN, false).expect("clean");
    assert!(!req.forwards_spawn());
    // a specific server named
    let name = b"remote".to_vec();
    let req = c.connect_request(Some(&name), NOFLAGS, false).expect("clean");
    assert!(!req.forwards_spawn());
}

#[test]
fn playback_request_marshals_all_arguments() {
    let s = Stream::new(10).expect("non-null");
    let peer = Stream::new(11).expect("non-null");
    let dev = b"alsa_output.pci".to_vec();
    let req = s
        .connect_playback_request(Some(&dev), true, 0x1, true, Some(&peer))
        .expect("clean name");
    assert_eq!(req.device.expect("named").as_bytes().as_slice(), b"alsa_output.pci\0");
    assert!(req.attr_given);
    assert_eq!(req.flags, 0x1);
    assert!(req.volume_given);
    assert_eq!(req.sync_raw, 11);
}

#[test]
fn playback_request_defaults_pass_null() {
    let s = Stream::new(10).expect("non-null");
    let req = s.connect_playback_request(None, false, 0, false, None).expect("clean");
    assert!(req.device.is_none());
    assert!(!req.attr_given);
    assert!(!req.volume_given);
    assert_eq!(req.sync_raw, 0);
}

#[test]
fn record_request_marshals_device() {
    let s = Stream::new(10).expect("non-null");
    let dev = b"monitor".to_vec();
    let req = s.connect_record_request(Some(&dev), false, 0x2).expect("clean");
    assert_eq!(req.device.expect("named").as_bytes().as_slice(), b"monitor\0");
    assert_eq!(req.flags, 0x2);
    let bad = b"mon\0itor".to_vec();
    assert!(s.connect_record_request(Some(&bad), false, 0).is_none());
}

#[test]
fn new_stream_request_marshals_name() {
    let name = b"music".to_vec();
    let req = new_stream_request(&name, true).expect("clean");
    assert_eq!(req.name.as_bytes().as_slice(), b"music\0");
    assert!(req.map_given);
    let bad = b"mu\0sic".to_vec();
    assert!(new_stream_request(&bad, false).is_none());
}

#[test]
fn new_extended_request_counts_formats() {
    let name = b"movie".to_vec();
    let req = new_extended_request(&name, 3).expect("clean");
    assert_eq!(req.name.as_bytes().as_slice(), b"movie\0");
    assert_eq!(req.format_count, 3);
}
