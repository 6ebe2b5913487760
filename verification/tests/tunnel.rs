use netlinklib::channel::{AddressFamily, ControlRequest, Operation, TunnelKind};
use netlinklib::descriptor::TunnelDescriptor;
use netlinklib::error::Error;
use netlinklib::tunnel::{IpIp6, Lifecycle, Sit};
use netlinklib::wire::ByteOrder;

const LOCAL4: u32 = u32::from_be_bytes([203, 0, 113, 1]);
const REMOTE4: u32 = u32::from_be_bytes([198, 51, 100, 1]);
const LOCAL6: u128 = 0x2001_0db8_0000_0000_0000_0000_0000_0001;
const REMOTE6: u128 = 0x2001_0db8_0000_0000_0000_0000_0000_0002;

fn new_sit(name: &str, link: u32) -> Result<(Sit, ControlRequest), Error> {
    Sit::new(String::from(name), String::from("eth0"), link, LOCAL4, REMOTE4, ByteOrder::Little)
}

fn new_ipip6(name: &str, link: u32) -> Result<(IpIp6, ControlRequest), Error> {
    IpIp6::new(String::from(name), String::from("eth0"), link, LOCAL6, REMOTE6, ByteOrder::Little)
}

fn delete_block(name: &str) -> Vec<u8> {
    let mut block = vec![0u8; 52];
    block[..name.len()].copy_from_slice(name.as_bytes());
    block
}

#[test]
fn sit_creation_request() {
    let (handle, request) = new_sit("tun0", 7).unwrap();
    assert_eq!(handle.name(), "tun0");
    assert_eq!(handle.state(), Lifecycle::Uncreated);
    assert_eq!(request.operation, Operation::Add);
    assert_eq!(request.kind, TunnelKind::Sit);
    assert_eq!(request.family, AddressFamily::Inet);
    let block = TunnelDescriptor::sit(String::from("tun0"), 7, LOCAL4, REMOTE4);
    assert_eq!(request.payload, block.encode(ByteOrder::Little).unwrap());
    assert_eq!(request.payload.len(), 52);
}

#[test]
fn ipip6_creation_request() {
    let (handle, request) = new_ipip6("dslite0", 3).unwrap();
    assert_eq!(handle.name(), "dslite0");
    assert_eq!(handle.state(), Lifecycle::Uncreated);
    assert_eq!(request.operation, Operation::Add);
    assert_eq!(request.kind, TunnelKind::IpIp6);
    assert_eq!(request.family, AddressFamily::Inet6);
    let block = TunnelDescriptor::ipip6(String::from("dslite0"), 3, LOCAL6, REMOTE6);
    assert_eq!(request.payload, block.encode(ByteOrder::Little).unwrap());
    assert_eq!(request.payload.len(), 64);
}

#[test]
fn creation_request_follows_the_byte_order() {
    let (_, little) = Sit::new(
        String::from("tun0"),
        String::from("eth0"),
        0x0102_0304,
        LOCAL4,
        REMOTE4,
        ByteOrder::Little,
    )
    .unwrap();
    let (_, big) = Sit::new(
        String::from("tun0"),
        String::from("eth0"),
        0x0102_0304,
        LOCAL4,
        REMOTE4,
        ByteOrder::Big,
    )
    .unwrap();
    assert_eq!(&little.payload[16..20], &[4, 3, 2, 1]);
    assert_eq!(&big.payload[16..20], &[1, 2, 3, 4]);
}

#[test]
fn master_index_zero_is_master_not_found() {
    assert_eq!(
        new_sit("tun0", 0).unwrap_err(),
        Error::MasterNotFound(String::from("eth0"))
    );
    assert_eq!(
        new_ipip6("dslite0", 0).unwrap_err(),
        Error::MasterNotFound(String::from("eth0"))
    );
}

#[test]
fn master_not_found_comes_before_name_too_long() {
    let name = "a-name-that-is-far-too-long";
    assert_eq!(
        new_sit(name, 0).unwrap_err(),
        Error::MasterNotFound(String::from("eth0"))
    );
    assert_eq!(
        new_ipip6(name, 0).unwrap_err(),
        Error::MasterNotFound(String::from("eth0"))
    );
}

#[test]
fn long_name_is_name_too_long() {
    assert_eq!(new_sit("abcdefghijklmnop", 7).unwrap_err(), Error::NameTooLong);
    assert_eq!(new_ipip6("abcdefghijklmnop", 7).unwrap_err(), Error::NameTooLong);
}

#[test]
fn longest_name_is_accepted() {
    let (handle, request) = new_sit("abcdefghijklmno", 7).unwrap();
    assert_eq!(handle.name(), "abcdefghijklmno");
    assert_eq!(&request.payload[..15], b"abcdefghijklmno");
    assert_eq!(request.payload[15], 0);
}

#[test]
fn successful_creation_gives_a_created_handle() {
    let (handle, _) = new_sit("tun0", 7).unwrap();
    let handle = handle.created(Ok(())).unwrap();
    assert_eq!(handle.state(), Lifecycle::Created);
    assert_eq!(handle.name(), "tun0");

    let (handle, _) = new_ipip6("dslite0", 7).unwrap();
    let handle = handle.created(Ok(())).unwrap();
    assert_eq!(handle.state(), Lifecycle::Created);
    assert_eq!(handle.name(), "dslite0");
}

#[test]
fn failed_creation_gives_the_error_and_no_handle() {
    let (handle, _) = new_sit("tun0", 7).unwrap();
    assert_eq!(
        handle.created(Err(Error::SystemCall(17))).unwrap_err(),
        Error::SystemCall(17)
    );
    let (handle, _) = new_ipip6("dslite0", 7).unwrap();
    assert_eq!(
        handle.created(Err(Error::SystemCall(1))).unwrap_err(),
        Error::SystemCall(1)
    );
}

#[test]
fn a_second_report_does_not_move_the_handle() {
    let (handle, _) = new_sit("tun0", 7).unwrap();
    let handle = handle.created(Ok(())).unwrap();
    let mut handle = handle.created(Ok(())).unwrap();
    assert_eq!(handle.state(), Lifecycle::Created);
    handle.release(Ok(())).unwrap();
    let handle = handle.created(Ok(())).unwrap();
    assert_eq!(handle.state(), Lifecycle::Released);
}

#[test]
fn sit_delete_request() {
    let (handle, _) = new_sit("tun0", 7).unwrap();
    let handle = handle.created(Ok(())).unwrap();
    let request = handle.do_delete();
    assert_eq!(request.operation, Operation::Delete);
    assert_eq!(request.kind, TunnelKind::Sit);
    assert_eq!(request.family, AddressFamily::Inet6);
    assert_eq!(request.payload, delete_block("tun0"));
}

#[test]
fn ipip6_delete_request() {
    let (handle, _) = new_ipip6("dslite0", 7).unwrap();
    let handle = handle.created(Ok(())).unwrap();
    let request = handle.do_delete();
    assert_eq!(request.operation, Operation::Delete);
    assert_eq!(request.kind, TunnelKind::IpIp6);
    assert_eq!(request.family, AddressFamily::Inet6);
    assert_eq!(request.payload, delete_block("dslite0"));
}

#[test]
fn delete_request_names_what_the_creation_named() {
    let (handle, create) = new_sit("abcdefghijklmno", 7).unwrap();
    let delete = handle.do_delete();
    assert_eq!(&create.payload[..16], &delete.payload[..16]);
    assert_eq!(create.kind, delete.kind);
}

#[test]
fn ipip6_delete_request_names_what_the_creation_named() {
    let (handle, create) = new_ipip6("abcdefghijklmno", 7).unwrap();
    let delete = handle.do_delete();
    assert_eq!(create.payload.len(), 64);
    assert_eq!(delete.payload.len(), 52);
    assert_eq!(&create.payload[..16], &delete.payload[..16]);
    assert_eq!(create.kind, delete.kind);
    assert_eq!(create.device(), delete.device());
}

#[test]
fn requests_go_to_the_template_device_not_to_the_tunnel() {
    let (handle, create) = new_sit("tun0", 7).unwrap();
    let mut sit0 = vec![0u8; 16];
    sit0[..4].copy_from_slice(b"sit0");
    assert_eq!(create.device(), sit0);
    assert_eq!(handle.do_delete().device(), sit0);

    let (handle, create) = new_ipip6("dslite0", 7).unwrap();
    let mut ip6tnl0 = vec![0u8; 16];
    ip6tnl0[..7].copy_from_slice(b"ip6tnl0");
    assert_eq!(create.device(), ip6tnl0);
    assert_eq!(handle.do_delete().device(), ip6tnl0);
}

#[test]
fn release_never_fails() {
    let (handle, _) = new_sit("tun0", 7).unwrap();
    let mut handle = handle.created(Ok(())).unwrap();
    assert_eq!(handle.release(Err(Error::SystemCall(19))), Ok(()));
    assert_eq!(handle.state(), Lifecycle::Released);
    assert_eq!(handle.name(), "tun0");
}

#[test]
fn releasing_twice_never_fails() {
    let (handle, _) = new_sit("tun0", 7).unwrap();
    let mut handle = handle.created(Ok(())).unwrap();
    let first = handle.do_delete();
    assert_eq!(handle.release(Ok(())), Ok(()));
    assert_eq!(handle.state(), Lifecycle::Released);
    let second = handle.do_delete();
    assert_eq!(handle.release(Err(Error::SystemCall(19))), Ok(()));
    assert_eq!(handle.state(), Lifecycle::Released);
    assert_eq!(first, second);

    let (handle, _) = new_ipip6("dslite0", 7).unwrap();
    let mut handle = handle.created(Ok(())).unwrap();
    assert_eq!(handle.release(Err(Error::SystemCall(19))), Ok(()));
    assert_eq!(handle.release(Err(Error::SystemCall(19))), Ok(()));
    assert_eq!(handle.state(), Lifecycle::Released);
    assert_eq!(handle.name(), "dslite0");
}

#[test]
fn release_swallows_every_error() {
    let errors = [
        Error::NameTooLong,
        Error::MasterNotFound(String::from("eth0")),
        Error::SystemCall(1),
        Error::SystemCall(i32::MAX),
    ];
    for error in errors {
        let (handle, _) = new_ipip6("dslite0", 7).unwrap();
        let mut handle = handle.created(Ok(())).unwrap();
        assert_eq!(handle.release(Err(error)), Ok(()));
        assert_eq!(handle.state(), Lifecycle::Released);
    }
}
