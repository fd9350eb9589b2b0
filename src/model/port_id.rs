use super::PortDirection;
use vstd::prelude::*;

verus! {

/// Keys of a [`PortIdSet`](super::PortIdSet) or [`PortIdMap`](super::PortIdMap): port
/// identifiers, each standing for one distinct integer.
pub trait PortIdKey: Copy + Sized {
    /// The integer that this identifier stands for.
    spec fn key(&self) -> int;

    /// Whether `key` has the sign of this kind of identifier.
    spec fn valid_key(key: int) -> bool;

    /// Returns the integer that this identifier stands for.
    fn as_key(&self) -> (r: isize)
        ensures
            r as int == self.key(),
            Self::valid_key(r as int),
    ;

    /// Two identifiers are equal exactly when their integers are.
    proof fn lemma_key_injective(a: Self, b: Self)
        ensures
            a.key() == b.key() <==> a == b,
    ;
}

/// An input port identifier: always a negative integer.
#[derive(Clone, Copy, Debug, PartialEq, Eq, Structural, Hash, PartialOrd, Ord)]
pub struct InputPortId(isize);

impl View for InputPortId {
    type V = int;

    closed spec fn view(&self) -> int {
        self.0 as int
    }
}

impl InputPortId {
    #[verifier::type_invariant]
    spec fn inv(self) -> bool {
        self.0 < 0
    }

    /// Whether `id` is a valid input port identifier.
    pub open spec fn valid(id: int) -> bool {
        isize::MIN <= id < 0
    }

    /// Makes an input port identifier from a negative integer.
    pub fn new(id: isize) -> (r: Option<InputPortId>)
        ensures
            r is Some <==> id < 0,
            r matches Some(p) ==> p@ == id as int,
    {
        if id < 0 {
            Some(InputPortId(id))
        } else {
            None
        }
    }

    /// Returns the integer of this identifier.
    pub fn as_isize(&self) -> (r: isize)
        ensures
            r as int == self@,
            r < 0,
    {
        proof {
            use_type_invariant(self);
        }
        self.0
    }

    /// Returns the zero-based allocation index of this identifier: `-1` is index 0,
    /// `-2` is index 1, and so on.
    pub fn index(&self) -> (r: usize)
        ensures
            r as int == -self@ - 1,
    {
        proof {
            use_type_invariant(self);
        }
        (-(self.0 + 1)) as usize
    }
}

impl InputPortId {
    /// Two input port identifiers are equal exactly when their integers are.
    pub proof fn lemma_view_injective(a: InputPortId, b: InputPortId)
        ensures
            a@ == b@ <==> a == b,
    {
    }
}

impl PortIdKey for InputPortId {
    open spec fn key(&self) -> int {
        self@
    }

    open spec fn valid_key(key: int) -> bool {
        key < 0
    }

    fn as_key(&self) -> (r: isize) {
        self.as_isize()
    }

    proof fn lemma_key_injective(a: Self, b: Self) {
    }
}

impl TryFrom<isize> for InputPortId {
    type Error = &'static str;

    fn try_from(id: isize) -> (r: Result<Self, Self::Error>)
        ensures
            r is Ok <==> id < 0,
            r matches Ok(p) ==> p@ == id as int,
    {
        if id < 0 {
            Ok(InputPortId(id))
        } else {
            Err("Input port IDs must be negative integers")
        }
    }
}

impl vstd::std_specs::convert::TryFromSpecImpl<isize> for InputPortId {
    open spec fn obeys_try_from_spec() -> bool {
        true
    }

    closed spec fn try_from_spec(id: isize) -> Result<Self, Self::Error> {
        if id < 0 {
            Ok(InputPortId(id))
        } else {
            Err("Input port IDs must be negative integers")
        }
    }
}

/// An output port identifier: always a positive integer.
#[derive(Clone, Copy, Debug, PartialEq, Eq, Structural, Hash, PartialOrd, Ord)]
pub struct OutputPortId(isize);

impl View for OutputPortId {
    type V = int;

    closed spec fn view(&self) -> int {
        self.0 as int
    }
}

impl OutputPortId {
    #[verifier::type_invariant]
    spec fn inv(self) -> bool {
        self.0 > 0
    }

    /// Whether `id` is a valid output port identifier.
    pub open spec fn valid(id: int) -> bool {
        0 < id <= isize::MAX
    }

    /// Makes an output port identifier from a positive integer.
    pub fn new(id: isize) -> (r: Option<OutputPortId>)
        ensures
            r is Some <==> id > 0,
            r matches Some(p) ==> p@ == id as int,
    {
        if id > 0 {
            Some(OutputPortId(id))
        } else {
            None
        }
    }

    /// Returns the integer of this identifier.
    pub fn as_isize(&self) -> (r: isize)
        ensures
            r as int == self@,
            r > 0,
    {
        proof {
            use_type_invariant(self);
        }
        self.0
    }

    /// Returns the zero-based allocation index of this identifier: `1` is index 0,
    /// `2` is index 1, and so on.
    pub fn index(&self) -> (r: usize)
        ensures
            r as int == self@ - 1,
    {
        proof {
            use_type_invariant(self);
        }
        (self.0 - 1) as usize
    }
}

impl OutputPortId {
    /// Two output port identifiers are equal exactly when their integers are.
    pub proof fn lemma_view_injective(a: OutputPortId, b: OutputPortId)
        ensures
            a@ == b@ <==> a == b,
    {
    }
}

impl PortIdKey for OutputPortId {
    open spec fn key(&self) -> int {
        self@
    }

    open spec fn valid_key(key: int) -> bool {
        key > 0
    }

    fn as_key(&self) -> (r: isize) {
        self.as_isize()
    }

    proof fn lemma_key_injective(a: Self, b: Self) {
    }
}

impl TryFrom<isize> for OutputPortId {
    type Error = &'static str;

    fn try_from(id: isize) -> (r: Result<Self, Self::Error>)
        ensures
            r is Ok <==> id > 0,
            r matches Ok(p) ==> p@ == id as int,
    {
        if id > 0 {
            Ok(OutputPortId(id))
        } else {
            Err("Output port IDs must be positive integers")
        }
    }
}

impl vstd::std_specs::convert::TryFromSpecImpl<isize> for OutputPortId {
    open spec fn obeys_try_from_spec() -> bool {
        true
    }

    closed spec fn try_from_spec(id: isize) -> Result<Self, Self::Error> {
        if id > 0 {
            Ok(OutputPortId(id))
        } else {
            Err("Output port IDs must be positive integers")
        }
    }
}

/// An input or output port identifier.
#[derive(Clone, Copy, Debug, PartialEq, Eq, Structural, Hash, PartialOrd, Ord)]
pub enum PortId {
    Input(InputPortId),
    Output(OutputPortId),
}

impl View for PortId {
    type V = int;

    open spec fn view(&self) -> int {
        match self {
            PortId::Input(id) => id@,
            PortId::Output(id) => id@,
        }
    }
}

impl PortId {
    /// The direction that the sign of an identifier gives: negative is input,
    /// positive is output.
    pub open spec fn direction_of(id: int) -> PortDirection {
        if id < 0 {
            PortDirection::Input
        } else {
            PortDirection::Output
        }
    }

    /// The direction of the variant.
    pub open spec fn spec_direction(self) -> PortDirection {
        match self {
            PortId::Input(_) => PortDirection::Input,
            PortId::Output(_) => PortDirection::Output,
        }
    }

    /// Returns the direction of this port identifier.
    pub fn direction(&self) -> (r: PortDirection)
        ensures
            r == self.spec_direction(),
            r == Self::direction_of(self@),
    {
        match self {
            PortId::Input(id) => {
                let _ = id.as_isize();
                PortDirection::Input
            },
            PortId::Output(id) => {
                let _ = id.as_isize();
                PortDirection::Output
            },
        }
    }

    /// Returns the integer of this identifier.
    pub fn as_isize(&self) -> (r: isize)
        ensures
            r as int == self@,
            r != 0,
    {
        match self {
            PortId::Input(id) => id.as_isize(),
            PortId::Output(id) => id.as_isize(),
        }
    }

    /// Returns the integer of this identifier, cast to `usize`.
    pub fn as_usize(&self) -> (r: usize)
        ensures
            r == self@ as usize,
    {
        self.as_isize() as usize
    }
}

impl TryFrom<isize> for PortId {
    type Error = &'static str;

    fn try_from(id: isize) -> (r: Result<Self, Self::Error>)
        ensures
            r is Ok <==> id != 0,
            r matches Ok(p) ==> p@ == id as int && p.spec_direction() == Self::direction_of(
                id as int,
            ),
    {
        if id < 0 {
            Ok(PortId::Input(InputPortId(id)))
        } else if id > 0 {
            Ok(PortId::Output(OutputPortId(id)))
        } else {
            Err("Port IDs cannot be zero")
        }
    }
}

impl vstd::std_specs::convert::TryFromSpecImpl<isize> for PortId {
    open spec fn obeys_try_from_spec() -> bool {
        true
    }

    closed spec fn try_from_spec(id: isize) -> Result<Self, Self::Error> {
        if id < 0 {
            Ok(PortId::Input(InputPortId(id)))
        } else if id > 0 {
            Ok(PortId::Output(OutputPortId(id)))
        } else {
            Err("Port IDs cannot be zero")
        }
    }
}

impl From<InputPortId> for PortId {
    fn from(id: InputPortId) -> (r: PortId) {
        PortId::Input(id)
    }
}

impl vstd::std_specs::convert::FromSpecImpl<InputPortId> for PortId {
    open spec fn obeys_from_spec() -> bool {
        true
    }

    open spec fn from_spec(id: InputPortId) -> PortId {
        PortId::Input(id)
    }
}

impl From<OutputPortId> for PortId {
    fn from(id: OutputPortId) -> (r: PortId) {
        PortId::Output(id)
    }
}

impl vstd::std_specs::convert::FromSpecImpl<OutputPortId> for PortId {
    open spec fn obeys_from_spec() -> bool {
        true
    }

    open spec fn from_spec(id: OutputPortId) -> PortId {
        PortId::Output(id)
    }
}

impl From<PortId> for isize {
    fn from(id: PortId) -> (r: isize) {
        id.as_isize()
    }
}

impl vstd::std_specs::convert::FromSpecImpl<PortId> for isize {
    open spec fn obeys_from_spec() -> bool {
        true
    }

    open spec fn from_spec(id: PortId) -> isize {
        id@ as isize
    }
}

impl From<InputPortId> for isize {
    fn from(id: InputPortId) -> (r: isize) {
        id.as_isize()
    }
}

impl vstd::std_specs::convert::FromSpecImpl<InputPortId> for isize {
    open spec fn obeys_from_spec() -> bool {
        true
    }

    open spec fn from_spec(id: InputPortId) -> isize {
        id@ as isize
    }
}

impl From<OutputPortId> for isize {
    fn from(id: OutputPortId) -> (r: isize) {
        id.as_isize()
    }
}

impl vstd::std_specs::convert::FromSpecImpl<OutputPortId> for isize {
    open spec fn obeys_from_spec() -> bool {
        true
    }

    open spec fn from_spec(id: OutputPortId) -> isize {
        id@ as isize
    }
}

} // verus!
