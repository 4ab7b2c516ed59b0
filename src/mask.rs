use vstd::prelude::*;

verus! {

/// The descriptor can be read.
pub const EPOLLIN: u32 = 0x001;

/// Urgent data can be read.
pub const EPOLLPRI: u32 = 0x002;

/// The descriptor can be written.
pub const EPOLLOUT: u32 = 0x004;

/// An error condition; always reported, whether asked for or not.
pub const EPOLLERR: u32 = 0x008;

/// A hang-up; always reported, whether asked for or not.
pub const EPOLLHUP: u32 = 0x010;

/// The peer closed its writing half of a stream socket.
pub const EPOLLRDHUP: u32 = 0x2000;

/// Report readiness on changes only (edge-triggered).
pub const EPOLLET: u32 = 0x8000_0000;

/// Whether `flag` is set in `bits`.
pub open spec fn has_flag(bits: u32, flag: u32) -> bool {
    bits & flag != 0
}

/// `bits` with `flag` set when `v` holds, cleared otherwise.
pub open spec fn with_flag(bits: u32, flag: u32, v: bool) -> u32 {
    if v {
        bits | flag
    } else {
        bits & !flag
    }
}

/// The four conditions that a caller can ask for.
pub open spec fn is_requestable(flag: u32) -> bool {
    flag == EPOLLIN || flag == EPOLLOUT || flag == EPOLLRDHUP || flag == EPOLLPRI
}

fn set_flag(bits: u32, flag: u32, v: bool) -> (r: u32)
    requires
        is_requestable(flag),
    ensures
        r == with_flag(bits, flag, v),
        has_flag(r, flag) == v,
        forall|other: u32| other & flag == 0 ==> #[trigger] has_flag(r, other) == has_flag(bits, other),
{
    let r = if v {
        bits | flag
    } else {
        bits & !flag
    };
    assert(flag != 0);
    if v {
        assert((bits | flag) & flag != 0) by (bit_vector)
            requires
                flag != 0,
        ;
        assert forall|other: u32| other & flag == 0 implies #[trigger] has_flag(r, other) == has_flag(bits, other) by {
            assert(((bits | flag) & other != 0) == (bits & other != 0)) by (bit_vector)
                requires
                    other & flag == 0,
            ;
        }
    } else {
        assert((bits & !flag) & flag == 0) by (bit_vector);
        assert forall|other: u32| other & flag == 0 implies #[trigger] has_flag(r, other) == has_flag(bits, other) by {
            assert(((bits & !flag) & other != 0) == (bits & other != 0)) by (bit_vector)
                requires
                    other & flag == 0,
            ;
        }
    }
    r
}

/// The mask that both a new `IoEventMask` and a new builder start from: the
/// conditions that are reported whether asked for or not.
pub open spec fn always_reported() -> u32 {
    EPOLLERR | EPOLLHUP
}

/// A set of readiness conditions of a file descriptor, as epoll writes them.
#[derive(Clone, Copy, Debug, PartialEq, Eq, Structural)]
pub struct IoEventMask(u32);

impl View for IoEventMask {
    type V = u32;

    closed spec fn view(&self) -> u32 {
        self.0
    }
}

impl IoEventMask {
    pub fn new() -> (r: IoEventMask)
        ensures
            r@ == always_reported(),
    {
        IoEventMask(EPOLLERR | EPOLLHUP)
    }

    pub fn builder() -> (r: IoEventMaskBuilder)
        ensures
            r@ == always_reported(),
    {
        IoEventMaskBuilder(EPOLLERR | EPOLLHUP)
    }

    pub fn epollin(&self) -> (r: bool)
        ensures
            r == has_flag(self@, EPOLLIN),
    {
        (self.0 & EPOLLIN) != 0
    }

    pub fn set_epollin(&mut self, v: bool)
        ensures
            final(self)@ == with_flag(old(self)@, EPOLLIN, v),
            has_flag(final(self)@, EPOLLIN) == v,
            forall|other: u32| other & EPOLLIN == 0 ==> #[trigger] has_flag(final(self)@, other) == has_flag(old(self)@, other),
    {
        self.0 = set_flag(self.0, EPOLLIN, v);
    }

    pub fn epollout(&self) -> (r: bool)
        ensures
            r == has_flag(self@, EPOLLOUT),
    {
        (self.0 & EPOLLOUT) != 0
    }

    pub fn set_epollout(&mut self, v: bool)
        ensures
            final(self)@ == with_flag(old(self)@, EPOLLOUT, v),
            has_flag(final(self)@, EPOLLOUT) == v,
            forall|other: u32| other & EPOLLOUT == 0 ==> #[trigger] has_flag(final(self)@, other) == has_flag(old(self)@, other),
    {
        self.0 = set_flag(self.0, EPOLLOUT, v);
    }

    pub fn epollrdhup(&self) -> (r: bool)
        ensures
            r == has_flag(self@, EPOLLRDHUP),
    {
        (self.0 & EPOLLRDHUP) != 0
    }

    pub fn set_epollrdhup(&mut self, v: bool)
        ensures
            final(self)@ == with_flag(old(self)@, EPOLLRDHUP, v),
            has_flag(final(self)@, EPOLLRDHUP) == v,
            forall|other: u32| other & EPOLLRDHUP == 0 ==> #[trigger] has_flag(final(self)@, other) == has_flag(old(self)@, other),
    {
        self.0 = set_flag(self.0, EPOLLRDHUP, v);
    }

    pub fn epollpri(&self) -> (r: bool)
        ensures
            r == has_flag(self@, EPOLLPRI),
    {
        (self.0 & EPOLLPRI) != 0
    }

    pub fn set_epollpri(&mut self, v: bool)
        ensures
            final(self)@ == with_flag(old(self)@, EPOLLPRI, v),
            has_flag(final(self)@, EPOLLPRI) == v,
            forall|other: u32| other & EPOLLPRI == 0 ==> #[trigger] has_flag(final(self)@, other) == has_flag(old(self)@, other),
    {
        self.0 = set_flag(self.0, EPOLLPRI, v);
    }

    pub fn epollerr(&self) -> (r: bool)
        ensures
            r == has_flag(self@, EPOLLERR),
    {
        (self.0 & EPOLLERR) != 0
    }

    pub fn epollhup(&self) -> (r: bool)
        ensures
            r == has_flag(self@, EPOLLHUP),
    {
        (self.0 & EPOLLHUP) != 0
    }

    /// Names the conditions that are set, as `IoEventMask(EPOLLIN+EPOLLERR)`.
    pub fn describe(&self) -> (r: String)
        ensures
            r@ == description(self@),
    {
        let ghost bits = self@;
        let ghost head = "IoEventMask("@;
        let ghost mut names: Seq<Seq<char>> = Seq::empty();
        let mut first = true;
        let mut out = String::from_str("IoEventMask(");
        assert(out@ =~= head + joined(names));
        if self.epollin() {
            append_name(&mut out, first, "EPOLLIN", Ghost(head), Ghost(names));
            first = false;
            proof {
                names = names.push("EPOLLIN"@);
            }
        }
        assert(names =~= name_if(bits, EPOLLIN, "EPOLLIN"@));
        let ghost n1 = names;
        if self.epollout() {
            append_name(&mut out, first, "EPOLLOUT", Ghost(head), Ghost(names));
            first = false;
            proof {
                names = names.push("EPOLLOUT"@);
            }
        }
        assert(names =~= n1 + name_if(bits, EPOLLOUT, "EPOLLOUT"@));
        let ghost n2 = names;
        if self.epollrdhup() {
            append_name(&mut out, first, "EPOLLRDHUP", Ghost(head), Ghost(names));
            first = false;
            proof {
                names = names.push("EPOLLRDHUP"@);
            }
        }
        assert(names =~= n2 + name_if(bits, EPOLLRDHUP, "EPOLLRDHUP"@));
        let ghost n3 = names;
        if self.epollpri() {
            append_name(&mut out, first, "EPOLLPRI", Ghost(head), Ghost(names));
            first = false;
            proof {
                names = names.push("EPOLLPRI"@);
            }
        }
        assert(names =~= n3 + name_if(bits, EPOLLPRI, "EPOLLPRI"@));
        let ghost n4 = names;
        if self.epollerr() {
            append_name(&mut out, first, "EPOLLERR", Ghost(head), Ghost(names));
            first = false;
            proof {
                names = names.push("EPOLLERR"@);
            }
        }
        assert(names =~= n4 + name_if(bits, EPOLLERR, "EPOLLERR"@));
        let ghost n5 = names;
        if self.epollhup() {
            append_name(&mut out, first, "EPOLLHUP", Ghost(head), Ghost(names));
            first = false;
            proof {
                names = names.push("EPOLLHUP"@);
            }
        }
        assert(names =~= n5 + name_if(bits, EPOLLHUP, "EPOLLHUP"@));
        assert(names =~= flag_names(bits));
        out.append(")");
        out
    }
}

/// The one-element list holding `name` when `flag` is set in `bits`, else
/// the empty list.
pub open spec fn name_if(bits: u32, flag: u32, name: Seq<char>) -> Seq<Seq<char>> {
    if has_flag(bits, flag) {
        seq![name]
    } else {
        Seq::empty()
    }
}

/// The names of the conditions set in `bits`, in the order a description
/// lists them.
pub open spec fn flag_names(bits: u32) -> Seq<Seq<char>> {
    name_if(bits, EPOLLIN, "EPOLLIN"@) + name_if(bits, EPOLLOUT, "EPOLLOUT"@) + name_if(
        bits,
        EPOLLRDHUP,
        "EPOLLRDHUP"@,
    ) + name_if(bits, EPOLLPRI, "EPOLLPRI"@) + name_if(bits, EPOLLERR, "EPOLLERR"@) + name_if(
        bits,
        EPOLLHUP,
        "EPOLLHUP"@,
    )
}

/// `names` written one after another with a `+` between two neighbours.
pub open spec fn joined(names: Seq<Seq<char>>) -> Seq<char>
    decreases names.len(),
{
    if names.len() == 0 {
        Seq::empty()
    } else if names.len() == 1 {
        names[0]
    } else {
        joined(names.drop_last()) + "+"@ + names.last()
    }
}

/// The text that describes a mask of `bits`.
pub open spec fn description(bits: u32) -> Seq<char> {
    "IoEventMask("@ + joined(flag_names(bits)) + ")"@
}

fn append_name(
    out: &mut String,
    first: bool,
    name: &str,
    Ghost(head): Ghost<Seq<char>>,
    Ghost(names): Ghost<Seq<Seq<char>>>,
)
    requires
        old(out)@ == head + joined(names),
        first == (names.len() == 0),
    ensures
        final(out)@ == head + joined(names.push(name@)),
{
    if first {
        out.append(name);
        assert(names.push(name@).len() == 1);
    } else {
        out.append("+");
        out.append(name);
        assert(names.push(name@).drop_last() =~= names);
    }
}

impl From<u32> for IoEventMask {
    fn from(e: u32) -> (r: IoEventMask) {
        IoEventMask(e)
    }
}

impl vstd::std_specs::convert::FromSpecImpl<u32> for IoEventMask {
    open spec fn obeys_from_spec() -> bool {
        true
    }

    closed spec fn from_spec(e: u32) -> IoEventMask {
        IoEventMask(e)
    }
}

impl From<IoEventMask> for u32 {
    fn from(e: IoEventMask) -> (r: u32) {
        e.0
    }
}

impl vstd::std_specs::convert::FromSpecImpl<IoEventMask> for u32 {
    open spec fn obeys_from_spec() -> bool {
        true
    }

    open spec fn from_spec(e: IoEventMask) -> u32 {
        e@
    }
}

/// Builds an `IoEventMask` one condition at a time.
#[derive(Clone, Copy, Debug, PartialEq, Eq, Structural)]
pub struct IoEventMaskBuilder(u32);

impl View for IoEventMaskBuilder {
    type V = u32;

    closed spec fn view(&self) -> u32 {
        self.0
    }
}

impl IoEventMaskBuilder {
    pub fn set_epollin(self, v: bool) -> (r: IoEventMaskBuilder)
        ensures
            r@ == with_flag(self@, EPOLLIN, v),
            has_flag(r@, EPOLLIN) == v,
            forall|other: u32| other & EPOLLIN == 0 ==> #[trigger] has_flag(r@, other) == has_flag(self@, other),
    {
        IoEventMaskBuilder(set_flag(self.0, EPOLLIN, v))
    }

    pub fn set_epollout(self, v: bool) -> (r: IoEventMaskBuilder)
        ensures
            r@ == with_flag(self@, EPOLLOUT, v),
            has_flag(r@, EPOLLOUT) == v,
            forall|other: u32| other & EPOLLOUT == 0 ==> #[trigger] has_flag(r@, other) == has_flag(self@, other),
    {
        IoEventMaskBuilder(set_flag(self.0, EPOLLOUT, v))
    }

    pub fn set_epollrdhup(self, v: bool) -> (r: IoEventMaskBuilder)
        ensures
            r@ == with_flag(self@, EPOLLRDHUP, v),
            has_flag(r@, EPOLLRDHUP) == v,
            forall|other: u32| other & EPOLLRDHUP == 0 ==> #[trigger] has_flag(r@, other) == has_flag(self@, other),
    {
        IoEventMaskBuilder(set_flag(self.0, EPOLLRDHUP, v))
    }

    pub fn set_epollpri(self, v: bool) -> (r: IoEventMaskBuilder)
        ensures
            r@ == with_flag(self@, EPOLLPRI, v),
            has_flag(r@, EPOLLPRI) == v,
            forall|other: u32| other & EPOLLPRI == 0 ==> #[trigger] has_flag(r@, other) == has_flag(self@, other),
    {
        IoEventMaskBuilder(set_flag(self.0, EPOLLPRI, v))
    }

    pub fn build(self) -> (r: IoEventMask)
        ensures
            r@ == self@,
    {
        IoEventMask(self.0)
    }
}

impl From<IoEventMaskBuilder> for IoEventMask {
    fn from(builder: IoEventMaskBuilder) -> (r: IoEventMask) {
        builder.build()
    }
}

impl vstd::std_specs::convert::FromSpecImpl<IoEventMaskBuilder> for IoEventMask {
    open spec fn obeys_from_spec() -> bool {
        true
    }

    closed spec fn from_spec(builder: IoEventMaskBuilder) -> IoEventMask {
        IoEventMask(builder.0)
    }
}

/// The conditions to watch a descriptor for, and how to report them.
pub enum IoEventTriggering {
    /// Report a condition for as long as it holds.
    LevelTriggered(IoEventMask),
    /// Report a condition only when it starts to hold.
    EdgeTriggered(IoEventMask),
}

impl IoEventTriggering {
    /// The event mask libsystemd is handed for this interest.
    pub open spec fn spec_raw(self) -> u32 {
        match self {
            IoEventTriggering::LevelTriggered(m) => m@,
            IoEventTriggering::EdgeTriggered(m) => m@ | EPOLLET,
        }
    }
}

impl From<IoEventTriggering> for u32 {
    fn from(e: IoEventTriggering) -> (r: u32) {
        match e {
            IoEventTriggering::LevelTriggered(m) => m.0,
            IoEventTriggering::EdgeTriggered(m) => m.0 | EPOLLET,
        }
    }
}

impl vstd::std_specs::convert::FromSpecImpl<IoEventTriggering> for u32 {
    open spec fn obeys_from_spec() -> bool {
        true
    }

    open spec fn from_spec(e: IoEventTriggering) -> u32 {
        e.spec_raw()
    }
}

} // verus!
