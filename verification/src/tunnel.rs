//! Owned 6in4 and 4in6 tunnels.
//!
//! A handle owns the name of one tunnel interface. It starts out uncreated,
//! together with the request that makes the tunnel; it is created once the
//! control channel reports that the request succeeded; and it is released
//! once a deletion has been tried, whatever came of it.

use crate::channel::{AddressFamily, ControlRequest, Operation, RequestView, TunnelKind};
use crate::descriptor::TunnelDescriptor;
use crate::error::Error;
use crate::header::{InnerHeader, IpHdr4, IpHdr6};
use crate::name::{lemma_name_field, name_field, name_fits, NAME_SIZE};
use crate::wire::ByteOrder;
use vstd::prelude::*;
use vstd::utf8::encode_utf8;

verus! {

/// Where a handle stands in its life.
#[derive(Clone, Copy, Debug, PartialEq, Eq, Structural)]
pub enum Lifecycle {
    /// The request that makes the tunnel has not succeeded yet: no interface
    /// exists.
    Uncreated,
    /// The interface exists in the kernel.
    Created,
    /// A deletion has been tried.
    Released,
}

/// A handle as contracts speak of it.
pub struct HandleView {
    /// The name of the interface that the handle owns.
    pub name: Seq<char>,
    /// Where the handle stands.
    pub state: Lifecycle,
}

impl HandleView {
    /// The name fits a name field: true of every handle.
    pub open spec fn wf(self) -> bool {
        name_fits(encode_utf8(self.name))
    }

    /// The handle after its creating request has succeeded.
    pub open spec fn spec_created(self) -> HandleView {
        HandleView {
            name: self.name,
            state: if self.state == Lifecycle::Uncreated {
                Lifecycle::Created
            } else {
                self.state
            },
        }
    }

    /// The handle after a deletion has been tried.
    pub open spec fn spec_released(self) -> HandleView {
        HandleView { name: self.name, state: Lifecycle::Released }
    }

    /// The request that deletes the handle's tunnel: it goes to the template
    /// device of the driver, through an IPv6 socket, with a block that holds
    /// the tunnel's name and nothing else.
    pub open spec fn spec_delete(self, kind: TunnelKind) -> RequestView {
        RequestView {
            operation: Operation::Delete,
            kind,
            family: AddressFamily::Inet6,
            payload: TunnelDescriptor::spec_delete_bytes(encode_utf8(self.name)),
        }
    }
}

/// The family of the socket through which a tunnel of this kind is made: that
/// of its outer packets.
pub open spec fn spec_create_family(kind: TunnelKind) -> AddressFamily {
    match kind {
        TunnelKind::Sit => AddressFamily::Inet,
        TunnelKind::IpIp6 => AddressFamily::Inet6,
    }
}

/// The request that makes the tunnel which `block` describes.
pub open spec fn spec_create(
    kind: TunnelKind,
    block: TunnelDescriptor,
    order: ByteOrder,
) -> RequestView
    recommends
        block.fits(),
{
    RequestView {
        operation: Operation::Add,
        kind,
        family: spec_create_family(kind),
        payload: block.spec_encode(order),
    }
}

/// What the two kinds of handle share.
#[derive(Debug)]
struct Tunnel {
    name: String,
    state: Lifecycle,
}

impl View for Tunnel {
    type V = HandleView;

    closed spec fn view(&self) -> HandleView {
        HandleView { name: self.name@, state: self.state }
    }
}

impl Tunnel {
    #[verifier::type_invariant]
    spec fn fits(self) -> bool {
        self@.wf()
    }

    /// Draws up the creation of the tunnel that `block` describes on the
    /// master `master`.
    fn new(
        kind: TunnelKind,
        block: TunnelDescriptor,
        master: String,
        order: ByteOrder,
    ) -> (result: Result<(Tunnel, ControlRequest), Error>)
        ensures
            block.link == 0 ==> result == Err::<(Tunnel, ControlRequest), Error>(
                Error::MasterNotFound(master),
            ),
            block.link != 0 && !block.fits() ==> result == Err::<(Tunnel, ControlRequest), Error>(
                Error::NameTooLong,
            ),
            block.link != 0 && block.fits() ==> (result matches Ok((handle, request))
                && handle@ == (HandleView { name: block.name@, state: Lifecycle::Uncreated })
                && request@ == spec_create(kind, block, order)),
    {
        if block.link == 0 {
            return Err(Error::MasterNotFound(master));
        }
        let payload = block.encode(order)?;
        let family = match kind {
            TunnelKind::Sit => AddressFamily::Inet,
            TunnelKind::IpIp6 => AddressFamily::Inet6,
        };
        let request = ControlRequest { operation: Operation::Add, kind, family, payload };
        Ok((Tunnel { name: block.name, state: Lifecycle::Uncreated }, request))
    }

    /// Takes the channel's report on the creating request.
    fn created(self, outcome: Result<(), Error>) -> (result: Result<Tunnel, Error>)
        ensures
            match outcome {
                Ok(_) => result matches Ok(handle) && handle@ == self@.spec_created(),
                Err(error) => result == Err::<Tunnel, Error>(error),
            },
    {
        proof {
            use_type_invariant(&self);
        }
        match outcome {
            Ok(_) => {
                let state = match self.state {
                    Lifecycle::Uncreated => Lifecycle::Created,
                    Lifecycle::Created => Lifecycle::Created,
                    Lifecycle::Released => Lifecycle::Released,
                };
                Ok(Tunnel { name: self.name, state })
            },
            Err(error) => Err(error),
        }
    }

    /// The request that deletes the tunnel.
    fn do_delete(&self, kind: TunnelKind) -> (request: ControlRequest)
        ensures
            request@ == self@.spec_delete(kind),
    {
        proof {
            use_type_invariant(self);
        }
        let block = TunnelDescriptor::delete_only(self.name.clone());
        proof {
            block.lemma_delete_only(ByteOrder::Big);
        }
        let payload = block.encode(ByteOrder::Big).unwrap();
        ControlRequest { operation: Operation::Delete, kind, family: AddressFamily::Inet6, payload }
    }

    /// The name of the tunnel.
    fn name(&self) -> (name: &str)
        ensures
            name@ == self@.name,
            self@.wf(),
    {
        proof {
            use_type_invariant(self);
        }
        self.name.as_str()
    }

    /// Where the handle stands.
    fn state(&self) -> (state: Lifecycle)
        ensures
            state == self@.state,
    {
        self.state
    }

    /// Takes the channel's report on a deleting request, and drops it.
    fn release(&mut self, outcome: Result<(), Error>) -> (result: Result<(), Error>)
        ensures
            result is Ok,
            final(self)@ == old(self)@.spec_released(),
    {
        proof {
            use_type_invariant(&*self);
        }
        self.state = Lifecycle::Released;
        Ok(())
    }
}

/// A handle to a 6in4 tunnel.
#[derive(Debug)]
pub struct Sit {
    inner: Tunnel,
}

impl View for Sit {
    type V = HandleView;

    closed spec fn view(&self) -> HandleView {
        self.inner@
    }
}

impl Sit {
    /// Draws up a new 6in4 tunnel on a parent device.
    ///
    /// * `name` - the name of the tunnel to be created.
    /// * `master` - the name of the parent interface for actual traffic.
    /// * `link` - the index that `master` resolved to; zero if it did not.
    /// * `laddr` - the address of the local tunnel endpoint.
    /// * `raddr` - the address of the remote tunnel endpoint.
    /// * `order` - the byte order of the host.
    ///
    /// Gives the handle, still uncreated, and the request to put to the
    /// kernel. A master that did not resolve fails before anything else is
    /// looked at, and so before any request exists; then a name that does not
    /// fit.
    pub fn new(
        name: String,
        master: String,
        link: u32,
        laddr: u32,
        raddr: u32,
        order: ByteOrder,
    ) -> (result: Result<(Sit, ControlRequest), Error>)
        ensures
            link == 0 ==> result == Err::<(Sit, ControlRequest), Error>(
                Error::MasterNotFound(master),
            ),
            link != 0 && !name_fits(encode_utf8(name@)) ==> result == Err::<
                (Sit, ControlRequest),
                Error,
            >(Error::NameTooLong),
            link != 0 && name_fits(encode_utf8(name@)) ==> (result matches Ok((handle, request))
                && handle@ == (HandleView { name: name@, state: Lifecycle::Uncreated })
                && request@ == spec_create(
                TunnelKind::Sit,
                TunnelDescriptor {
                    name,
                    link,
                    iph: InnerHeader::V4(IpHdr4::spec_tunnel(laddr, raddr)),
                },
                order,
            )),
    {
        let block = TunnelDescriptor::sit(name, link, laddr, raddr);
        match Tunnel::new(TunnelKind::Sit, block, master, order) {
            Ok((inner, request)) => Ok((Sit { inner }, request)),
            Err(error) => Err(error),
        }
    }

    /// Takes the channel's report on the creating request. Where the request
    /// succeeded the handle is created; where it failed the error is handed on
    /// and no handle is left.
    pub fn created(self, outcome: Result<(), Error>) -> (result: Result<Sit, Error>)
        ensures
            match outcome {
                Ok(_) => result matches Ok(handle) && handle@ == self@.spec_created(),
                Err(error) => result == Err::<Sit, Error>(error),
            },
    {
        match self.inner.created(outcome) {
            Ok(inner) => Ok(Sit { inner }),
            Err(error) => Err(error),
        }
    }

    /// The request that deletes the tunnel. It is the same however often it is
    /// asked for.
    pub fn do_delete(&self) -> (request: ControlRequest)
        ensures
            request@ == self@.spec_delete(TunnelKind::Sit),
    {
        self.inner.do_delete(TunnelKind::Sit)
    }

    /// Takes the channel's report on a deleting request. Whatever it says, the
    /// handle is released and the caller sees no error.
    pub fn release(&mut self, outcome: Result<(), Error>) -> (result: Result<(), Error>)
        ensures
            result is Ok,
            final(self)@ == old(self)@.spec_released(),
    {
        self.inner.release(outcome)
    }

    /// The name of the tunnel.
    pub fn name(&self) -> (name: &str)
        ensures
            name@ == self@.name,
            self@.wf(),
    {
        self.inner.name()
    }

    /// Where the handle stands.
    pub fn state(&self) -> (state: Lifecycle)
        ensures
            state == self@.state,
    {
        self.inner.state()
    }
}

/// A handle to a 4in6 tunnel.
#[derive(Debug)]
pub struct IpIp6 {
    inner: Tunnel,
}

impl View for IpIp6 {
    type V = HandleView;

    closed spec fn view(&self) -> HandleView {
        self.inner@
    }
}

impl IpIp6 {
    /// Draws up a new 4in6 tunnel on a parent device.
    ///
    /// * `name` - the name of the tunnel to be created.
    /// * `master` - the name of the parent interface for actual traffic.
    /// * `link` - the index that `master` resolved to; zero if it did not.
    /// * `laddr` - the address of the local tunnel endpoint.
    /// * `raddr` - the address of the remote tunnel endpoint.
    /// * `order` - the byte order of the host.
    ///
    /// Gives the handle, still uncreated, and the request to put to the
    /// kernel. A master that did not resolve fails before anything else is
    /// looked at, and so before any request exists; then a name that does not
    /// fit.
    pub fn new(
        name: String,
        master: String,
        link: u32,
        laddr: u128,
        raddr: u128,
        order: ByteOrder,
    ) -> (result: Result<(IpIp6, ControlRequest), Error>)
        ensures
            link == 0 ==> result == Err::<(IpIp6, ControlRequest), Error>(
                Error::MasterNotFound(master),
            ),
            link != 0 && !name_fits(encode_utf8(name@)) ==> result == Err::<
                (IpIp6, ControlRequest),
                Error,
            >(Error::NameTooLong),
            link != 0 && name_fits(encode_utf8(name@)) ==> (result matches Ok((handle, request))
                && handle@ == (HandleView { name: name@, state: Lifecycle::Uncreated })
                && request@ == spec_create(
                TunnelKind::IpIp6,
                TunnelDescriptor {
                    name,
                    link,
                    iph: InnerHeader::V6(IpHdr6 { saddr: laddr, daddr: raddr }),
                },
                order,
            )),
    {
        let block = TunnelDescriptor::ipip6(name, link, laddr, raddr);
        match Tunnel::new(TunnelKind::IpIp6, block, master, order) {
            Ok((inner, request)) => Ok((IpIp6 { inner }, request)),
            Err(error) => Err(error),
        }
    }

    /// Takes the channel's report on the creating request. Where the request
    /// succeeded the handle is created; where it failed the error is handed on
    /// and no handle is left.
    pub fn created(self, outcome: Result<(), Error>) -> (result: Result<IpIp6, Error>)
        ensures
            match outcome {
                Ok(_) => result matches Ok(handle) && handle@ == self@.spec_created(),
                Err(error) => result == Err::<IpIp6, Error>(error),
            },
    {
        match self.inner.created(outcome) {
            Ok(inner) => Ok(IpIp6 { inner }),
            Err(error) => Err(error),
        }
    }

    /// The request that deletes the tunnel. It is the same however often it is
    /// asked for.
    pub fn do_delete(&self) -> (request: ControlRequest)
        ensures
            request@ == self@.spec_delete(TunnelKind::IpIp6),
    {
        self.inner.do_delete(TunnelKind::IpIp6)
    }

    /// Takes the channel's report on a deleting request. Whatever it says, the
    /// handle is released and the caller sees no error.
    pub fn release(&mut self, outcome: Result<(), Error>) -> (result: Result<(), Error>)
        ensures
            result is Ok,
            final(self)@ == old(self)@.spec_released(),
    {
        self.inner.release(outcome)
    }

    /// The name of the tunnel.
    pub fn name(&self) -> (name: &str)
        ensures
            name@ == self@.name,
            self@.wf(),
    {
        self.inner.name()
    }

    /// Where the handle stands.
    pub fn state(&self) -> (state: Lifecycle)
        ensures
            state == self@.state,
    {
        self.inner.state()
    }
}

/// Releasing a handle twice comes to releasing it once: the second release
/// leaves the handle as the first left it, and the request that deletes the
/// tunnel is the same before and after.
pub proof fn lemma_release_idempotent(handle: HandleView, kind: TunnelKind)
    ensures
        handle.spec_released().spec_released() == handle.spec_released(),
        handle.spec_released().spec_delete(kind) == handle.spec_delete(kind),
{
}

/// A handle never goes back: once released it stays released, and a report on
/// its creation moves it nowhere but from uncreated to created.
pub proof fn lemma_lifecycle_forward(handle: HandleView)
    ensures
        handle.spec_released().spec_created() == handle.spec_released(),
        handle.spec_created().state != Lifecycle::Uncreated,
        handle.state != Lifecycle::Uncreated ==> handle.spec_created() == handle,
{
}

/// The request that deletes a tunnel goes to the driver that made it and
/// names the tunnel that the creating request named: the two blocks hold the
/// same name field.
pub proof fn lemma_delete_names_created(
    kind: TunnelKind,
    block: TunnelDescriptor,
    order: ByteOrder,
    state: Lifecycle,
)
    requires
        block.fits(),
    ensures
        spec_create(kind, block, order).kind == (HandleView {
            name: block.name@,
            state,
        }).spec_delete(kind).kind,
        spec_create(kind, block, order).payload.subrange(0, NAME_SIZE as int) == (HandleView {
            name: block.name@,
            state,
        }).spec_delete(kind).payload.subrange(0, NAME_SIZE as int),
        spec_create(kind, block, order).payload.subrange(0, NAME_SIZE as int) == name_field(
            encode_utf8(block.name@),
        ),
{
    let name = encode_utf8(block.name@);
    lemma_name_field(name);
    // Both blocks start with the name field.
    assert(block.spec_encode(order).subrange(0, NAME_SIZE as int) =~= name_field(name));
    assert(TunnelDescriptor::spec_delete_bytes(name).subrange(0, NAME_SIZE as int) =~= name_field(
        name,
    ));
}

} // verus!
