use netlinklib::channel::{
    Action, AddressFamily, ControlChannel, ControlRequest, Operation, Outcome, SocketType,
    TunnelKind,
};
use netlinklib::error::Error;
use netlinklib::tunnel::{IpIp6, Lifecycle, Sit};
use netlinklib::wire::ByteOrder;

const EPERM: i32 = 1;
const EEXIST: i32 = 17;
const ENODEV: i32 = 19;
const EAFNOSUPPORT: i32 = 97;

const LOCAL4: u32 = u32::from_be_bytes([203, 0, 113, 1]);
const REMOTE4: u32 = u32::from_be_bytes([198, 51, 100, 1]);

/// A kernel that keeps a table of interfaces and counts what it is asked.
struct Kernel {
    interfaces: Vec<(u32, String)>,
    open: Vec<i32>,
    next_handle: i32,
    next_index: u32,
    sockets: usize,
    controls: usize,
    closes: usize,
    no_ipv6: bool,
    forbidden: bool,
}

impl Kernel {
    fn with_master(master: &str) -> Kernel {
        Kernel {
            interfaces: vec![(1, String::from("lo")), (2, String::from(master))],
            open: Vec::new(),
            next_handle: 3,
            next_index: 3,
            sockets: 0,
            controls: 0,
            closes: 0,
            no_ipv6: false,
            forbidden: false,
        }
    }

    fn resolve(&self, name: &str) -> u32 {
        self.interfaces
            .iter()
            .find(|(_, known)| known == name)
            .map(|(index, _)| *index)
            .unwrap_or(0)
    }

    fn socket(&mut self, family: AddressFamily) -> Outcome {
        self.sockets += 1;
        if self.no_ipv6 && family == AddressFamily::Inet6 {
            return Outcome { value: -1, errno: EAFNOSUPPORT };
        }
        let handle = self.next_handle;
        self.next_handle += 1;
        self.open.push(handle);
        Outcome { value: handle, errno: 0 }
    }

    fn ioctl(&mut self, handle: i32, request: &ControlRequest) -> Outcome {
        self.controls += 1;
        assert!(self.open.contains(&handle));
        let template = match request.kind {
            TunnelKind::Sit => "sit0",
            TunnelKind::IpIp6 => "ip6tnl0",
        };
        let device = request.device();
        assert_eq!(&device[..template.len()], template.as_bytes());
        assert!(device[template.len()..].iter().all(|byte| *byte == 0));
        if self.forbidden {
            return Outcome { value: -1, errno: EPERM };
        }
        let field = &request.payload[..16];
        let end = field.iter().position(|byte| *byte == 0).unwrap();
        let name = String::from_utf8(field[..end].to_vec()).unwrap();
        let known = self.interfaces.iter().position(|(_, known)| *known == name);
        match (request.operation, known) {
            (Operation::Add, Some(_)) => Outcome { value: -1, errno: EEXIST },
            (Operation::Add, None) => {
                let link = &request.payload[16..20];
                let link = u32::from_le_bytes([link[0], link[1], link[2], link[3]]);
                assert!(self.interfaces.iter().any(|(index, _)| *index == link));
                self.interfaces.push((self.next_index, name));
                self.next_index += 1;
                Outcome { value: 0, errno: 0 }
            }
            (Operation::Delete, Some(at)) => {
                self.interfaces.remove(at);
                Outcome { value: 0, errno: 0 }
            }
            (Operation::Delete, None) => Outcome { value: -1, errno: ENODEV },
        }
    }

    fn close(&mut self, handle: i32) -> Outcome {
        self.closes += 1;
        let at = self.open.iter().position(|open| *open == handle).unwrap();
        self.open.remove(at);
        Outcome { value: 0, errno: 0 }
    }

    /// Serves a request as a caller of the library does.
    fn send(&mut self, request: ControlRequest) -> Result<(), Error> {
        let mut channel = ControlChannel::send(request);
        loop {
            let outcome = match channel.action() {
                Action::Open { family, socket: SocketType::Datagram } => self.socket(family),
                Action::Control { handle } => self.ioctl(handle, channel.request()),
                Action::Close { handle } => self.close(handle),
                Action::Return { result } => {
                    assert!(self.open.is_empty());
                    return result;
                }
            };
            channel.step(outcome);
        }
    }

    fn create_sit(&mut self, name: &str, master: &str) -> Result<Sit, Error> {
        let (handle, request) = Sit::new(
            String::from(name),
            String::from(master),
            self.resolve(master),
            LOCAL4,
            REMOTE4,
            ByteOrder::Little,
        )?;
        let outcome = self.send(request);
        handle.created(outcome)
    }

    fn create_ipip6(&mut self, name: &str, master: &str) -> Result<IpIp6, Error> {
        let (handle, request) = IpIp6::new(
            String::from(name),
            String::from(master),
            self.resolve(master),
            1,
            2,
            ByteOrder::Little,
        )?;
        let outcome = self.send(request);
        handle.created(outcome)
    }

    fn release_sit(&mut self, handle: &mut Sit) -> Result<(), Error> {
        let outcome = self.send(handle.do_delete());
        handle.release(outcome)
    }

    fn release_ipip6(&mut self, handle: &mut IpIp6) -> Result<(), Error> {
        let outcome = self.send(handle.do_delete());
        handle.release(outcome)
    }
}

#[test]
fn creating_makes_the_interface() {
    let mut kernel = Kernel::with_master("eth0");
    let handle = kernel.create_sit("tun0", "eth0").unwrap();
    assert_eq!(handle.state(), Lifecycle::Created);
    assert_ne!(kernel.resolve("tun0"), 0);
    assert_eq!((kernel.sockets, kernel.controls, kernel.closes), (1, 1, 1));
}

#[test]
fn creating_then_releasing_leaves_no_interface() {
    let mut kernel = Kernel::with_master("eth0");
    let mut handle = kernel.create_sit("tun0", "eth0").unwrap();
    assert_eq!(kernel.release_sit(&mut handle), Ok(()));
    assert_eq!(handle.state(), Lifecycle::Released);
    assert_eq!(kernel.resolve("tun0"), 0);
    assert!(kernel.open.is_empty());

    let mut handle = kernel.create_ipip6("dslite0", "eth0").unwrap();
    assert_ne!(kernel.resolve("dslite0"), 0);
    assert_eq!(kernel.release_ipip6(&mut handle), Ok(()));
    assert_eq!(kernel.resolve("dslite0"), 0);
    assert!(kernel.open.is_empty());
}

#[test]
fn releasing_twice_raises_no_error() {
    let mut kernel = Kernel::with_master("eth0");
    let mut handle = kernel.create_sit("tun0", "eth0").unwrap();
    assert_eq!(kernel.release_sit(&mut handle), Ok(()));
    // The second deletion finds nothing to delete; the caller does not see it.
    assert_eq!(kernel.release_sit(&mut handle), Ok(()));
    assert_eq!(handle.state(), Lifecycle::Released);
    assert_eq!(kernel.resolve("tun0"), 0);
    assert_eq!(kernel.controls, 3);
    assert!(kernel.open.is_empty());
}

#[test]
fn unresolved_master_reaches_no_system_call() {
    let mut kernel = Kernel::with_master("eth0");
    assert_eq!(
        kernel.create_sit("tun0", "eth1").unwrap_err(),
        Error::MasterNotFound(String::from("eth1"))
    );
    assert_eq!(
        kernel.create_ipip6("dslite0", "eth1").unwrap_err(),
        Error::MasterNotFound(String::from("eth1"))
    );
    assert_eq!((kernel.sockets, kernel.controls, kernel.closes), (0, 0, 0));
    assert_eq!(kernel.resolve("tun0"), 0);
}

#[test]
fn too_long_name_reaches_no_system_call() {
    let mut kernel = Kernel::with_master("eth0");
    assert_eq!(
        kernel.create_sit("abcdefghijklmnop", "eth0").unwrap_err(),
        Error::NameTooLong
    );
    assert_eq!((kernel.sockets, kernel.controls, kernel.closes), (0, 0, 0));
}

#[test]
fn creating_what_exists_is_refused_by_the_kernel() {
    let mut kernel = Kernel::with_master("eth0");
    let _first = kernel.create_sit("tun0", "eth0").unwrap();
    assert_eq!(
        kernel.create_sit("tun0", "eth0").unwrap_err(),
        Error::SystemCall(EEXIST)
    );
    assert_ne!(kernel.resolve("tun0"), 0);
    assert!(kernel.open.is_empty());
    assert_eq!((kernel.sockets, kernel.controls, kernel.closes), (2, 2, 2));
}

#[test]
fn refused_control_call_still_closes_the_handle() {
    let mut kernel = Kernel::with_master("eth0");
    kernel.forbidden = true;
    assert_eq!(
        kernel.create_sit("tun0", "eth0").unwrap_err(),
        Error::SystemCall(EPERM)
    );
    assert!(kernel.open.is_empty());
    assert_eq!((kernel.sockets, kernel.controls, kernel.closes), (1, 1, 1));
    assert_eq!(kernel.resolve("tun0"), 0);
}

#[test]
fn socket_that_cannot_be_opened_ends_the_request() {
    let mut kernel = Kernel::with_master("eth0");
    kernel.no_ipv6 = true;
    assert_eq!(
        kernel.create_ipip6("dslite0", "eth0").unwrap_err(),
        Error::SystemCall(EAFNOSUPPORT)
    );
    assert_eq!((kernel.sockets, kernel.controls, kernel.closes), (1, 0, 0));
}

#[test]
fn failed_deletion_is_swallowed() {
    let mut kernel = Kernel::with_master("eth0");
    let mut handle = kernel.create_sit("tun0", "eth0").unwrap();
    kernel.no_ipv6 = true;
    assert_eq!(kernel.release_sit(&mut handle), Ok(()));
    assert_eq!(handle.state(), Lifecycle::Released);
    // The deletion never reached the driver: the interface is still there.
    assert_ne!(kernel.resolve("tun0"), 0);
}
