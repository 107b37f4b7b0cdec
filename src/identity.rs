//! Identity value types shared by the control plane: node slots, hardware
//! types, USB routing targets and USB controller modes.
use vstd::prelude::*;
use vstd::std_specs::convert::TryFromSpec;
use vstd::std_specs::convert::TryFromSpecImpl;

verus! {

/// A physical node position in the cluster, ordinal 0 to 3.
#[derive(Debug, Clone, Copy, PartialEq, Eq, Structural)]
pub enum NodeId {
    Node1,
    Node2,
    Node3,
    Node4,
}

impl NodeId {
    /// The ordinal of the slot: `Node1` is 0, `Node4` is 3.
    pub open spec fn ordinal(self) -> nat {
        match self {
            NodeId::Node1 => 0,
            NodeId::Node2 => 1,
            NodeId::Node3 => 2,
            NodeId::Node4 => 3,
        }
    }

    /// The single-bit mask of this slot.
    pub open spec fn bitfield_spec(self) -> u8 {
        (1u8 << (self.ordinal() as u8)) as u8
    }

    /// The mask of the other three slots, within the low four bits.
    pub open spec fn inverse_bitfield_spec(self) -> u8 {
        (0b1111u8 & !self.bitfield_spec()) as u8
    }

    fn index(self) -> (r: u8)
        ensures
            r as nat == self.ordinal(),
    {
        match self {
            NodeId::Node1 => 0,
            NodeId::Node2 => 1,
            NodeId::Node3 => 2,
            NodeId::Node4 => 3,
        }
    }

    /// The mask that selects this slot alone: bit `i` for ordinal `i`.
    pub fn to_bitfield(self) -> (r: u8)
        ensures
            r == self.bitfield_spec(),
            r == match self {
                NodeId::Node1 => 1u8,
                NodeId::Node2 => 2u8,
                NodeId::Node3 => 4u8,
                NodeId::Node4 => 8u8,
            },
    {
        let i = self.index();
        proof {
            assert(1u8 << 0u8 == 1u8 && 1u8 << 1u8 == 2u8 && 1u8 << 2u8 == 4u8 && 1u8 << 3u8 == 8u8)
                by (bit_vector);
        }
        1u8 << i
    }

    /// The mask that selects the three other slots, within the low four bits.
    pub fn to_inverse_bitfield(self) -> (r: u8)
        ensures
            r == self.inverse_bitfield_spec(),
            r == match self {
                NodeId::Node1 => 0b1110u8,
                NodeId::Node2 => 0b1101u8,
                NodeId::Node3 => 0b1011u8,
                NodeId::Node4 => 0b0111u8,
            },
    {
        let b = self.to_bitfield();
        proof {
            assert(0b1111u8 & !1u8 == 0b1110u8 && 0b1111u8 & !2u8 == 0b1101u8
                && 0b1111u8 & !4u8 == 0b1011u8 && 0b1111u8 & !8u8 == 0b0111u8) by (bit_vector);
        }
        0b1111 & !b
    }

    /// The slot of an ordinal: `Some` exactly for 0 to 3.
    pub open spec fn from_ordinal(v: int) -> Option<NodeId> {
        if v == 0 {
            Some(NodeId::Node1)
        } else if v == 1 {
            Some(NodeId::Node2)
        } else if v == 2 {
            Some(NodeId::Node3)
        } else if v == 3 {
            Some(NodeId::Node4)
        } else {
            None
        }
    }
}

/// The two masks of a slot are complements within the low four bits: together
/// they cover all four slots, and they share no bit.
pub proof fn lemma_masks_complement(n: NodeId)
    ensures
        n.bitfield_spec() | n.inverse_bitfield_spec() == 0b1111u8,
        n.bitfield_spec() & n.inverse_bitfield_spec() == 0u8,
        n.bitfield_spec() != 0u8,
{
    let b = n.bitfield_spec();
    assert(1u8 << 0u8 == 1u8 && 1u8 << 1u8 == 2u8 && 1u8 << 2u8 == 4u8 && 1u8 << 3u8 == 8u8)
        by (bit_vector);
    assert(b == 1u8 || b == 2u8 || b == 4u8 || b == 8u8);
    assert(forall|x: u8|
        (x == 1u8 || x == 2u8 || x == 4u8 || x == 8u8) ==> (x | (0b1111u8 & !x)) == 0b1111u8
            && (x & (0b1111u8 & !x)) == 0u8) by (bit_vector);
}

/// A validation failure: a raw integer that names no value of an identity type.
#[derive(Debug, Clone, Copy, PartialEq, Eq, Structural)]
pub enum IdentityError {
    UnknownNodeId(i32),
    UnknownUsbRoute(i32),
    UnknownUsbMode(i32),
}

impl TryFrom<u8> for NodeId {
    type Error = IdentityError;

    fn try_from(value: u8) -> (r: Result<NodeId, IdentityError>) {
        match value {
            0 => Ok(NodeId::Node1),
            1 => Ok(NodeId::Node2),
            2 => Ok(NodeId::Node3),
            3 => Ok(NodeId::Node4),
            x => Err(IdentityError::UnknownNodeId(x as i32)),
        }
    }
}

impl TryFromSpecImpl<u8> for NodeId {
    open spec fn obeys_try_from_spec() -> bool {
        true
    }

    open spec fn try_from_spec(v: u8) -> Result<NodeId, IdentityError> {
        match NodeId::from_ordinal(v as int) {
            Some(n) => Ok(n),
            None => Err(IdentityError::UnknownNodeId(v as i32)),
        }
    }
}

impl TryFrom<i32> for NodeId {
    type Error = IdentityError;

    fn try_from(value: i32) -> (r: Result<NodeId, IdentityError>) {
        match value {
            0 => Ok(NodeId::Node1),
            1 => Ok(NodeId::Node2),
            2 => Ok(NodeId::Node3),
            3 => Ok(NodeId::Node4),
            x => Err(IdentityError::UnknownNodeId(x)),
        }
    }
}

impl TryFromSpecImpl<i32> for NodeId {
    open spec fn obeys_try_from_spec() -> bool {
        true
    }

    open spec fn try_from_spec(v: i32) -> Result<NodeId, IdentityError> {
        match NodeId::from_ordinal(v as int) {
            Some(n) => Ok(n),
            None => Err(IdentityError::UnknownNodeId(v)),
        }
    }
}

/// The hardware type of a node. It carries no behaviour beyond its identity.
#[derive(Debug, Clone, Copy, PartialEq, Eq, Structural)]
pub enum NodeType {
    RaspberryPi4,
    JetsonTx2,
    RK1,
}

/// The endpoint that a node's USB lines are routed to.
#[derive(Debug, Clone, Copy, PartialEq, Eq, Structural)]
pub enum UsbRoute {
    Bmc,
    UsbA,
}

impl UsbRoute {
    /// The route of a code: 0 is `Bmc`, 1 is `UsbA`, nothing else is one.
    pub open spec fn from_code(v: int) -> Option<UsbRoute> {
        if v == 0 {
            Some(UsbRoute::Bmc)
        } else if v == 1 {
            Some(UsbRoute::UsbA)
        } else {
            None
        }
    }
}

impl TryFrom<i32> for UsbRoute {
    type Error = IdentityError;

    fn try_from(value: i32) -> (r: Result<UsbRoute, IdentityError>) {
        match value {
            0 => Ok(UsbRoute::Bmc),
            1 => Ok(UsbRoute::UsbA),
            x => Err(IdentityError::UnknownUsbRoute(x)),
        }
    }
}

impl TryFromSpecImpl<i32> for UsbRoute {
    open spec fn obeys_try_from_spec() -> bool {
        true
    }

    open spec fn try_from_spec(v: i32) -> Result<UsbRoute, IdentityError> {
        match UsbRoute::from_code(v as int) {
            Some(r) => Ok(r),
            None => Err(IdentityError::UnknownUsbRoute(v)),
        }
    }
}

/// The role that a node's USB controller is placed into.
#[derive(Debug, Clone, Copy, PartialEq, Eq, Structural)]
pub enum UsbMode {
    Host,
    Device,
}

impl UsbMode {
    /// The mode of a code: 0 is `Host`, 1 is `Device`, nothing else is one.
    pub open spec fn from_code(v: int) -> Option<UsbMode> {
        if v == 0 {
            Some(UsbMode::Host)
        } else if v == 1 {
            Some(UsbMode::Device)
        } else {
            None
        }
    }
}

impl TryFrom<i32> for UsbMode {
    type Error = IdentityError;

    fn try_from(value: i32) -> (r: Result<UsbMode, IdentityError>) {
        match value {
            0 => Ok(UsbMode::Host),
            1 => Ok(UsbMode::Device),
            x => Err(IdentityError::UnknownUsbMode(x)),
        }
    }
}

impl TryFromSpecImpl<i32> for UsbMode {
    open spec fn obeys_try_from_spec() -> bool {
        true
    }

    open spec fn try_from_spec(v: i32) -> Result<UsbMode, IdentityError> {
        match UsbMode::from_code(v as int) {
            Some(m) => Ok(m),
            None => Err(IdentityError::UnknownUsbMode(v)),
        }
    }
}

/// Construction from a raw integer is checked and total: a node slot exactly
/// for 0 to 3, with that ordinal, and a route or a mode exactly for 0 and 1;
/// every other integer is a validation error that carries it.
pub proof fn lemma_construction_checked(v: i32, b: u8)
    ensures
        (<NodeId as TryFromSpec<i32>>::try_from_spec(v) is Ok) <==> 0 <= v <= 3,
        (<NodeId as TryFromSpec<u8>>::try_from_spec(b) is Ok) <==> b <= 3,
        (<UsbRoute as TryFromSpec<i32>>::try_from_spec(v) is Ok) <==> 0 <= v <= 1,
        (<UsbMode as TryFromSpec<i32>>::try_from_spec(v) is Ok) <==> 0 <= v <= 1,
        0 <= v <= 3 ==> <NodeId as TryFromSpec<i32>>::try_from_spec(v)->Ok_0.ordinal() == v,
        b <= 3 ==> <NodeId as TryFromSpec<u8>>::try_from_spec(b)->Ok_0.ordinal() == b,
        !(0 <= v <= 3) ==> <NodeId as TryFromSpec<i32>>::try_from_spec(v) == Err::<
            NodeId,
            IdentityError,
        >(IdentityError::UnknownNodeId(v)),
        !(0 <= v <= 1) ==> <UsbRoute as TryFromSpec<i32>>::try_from_spec(v) == Err::<
            UsbRoute,
            IdentityError,
        >(IdentityError::UnknownUsbRoute(v)),
        !(0 <= v <= 1) ==> <UsbMode as TryFromSpec<i32>>::try_from_spec(v) == Err::<
            UsbMode,
            IdentityError,
        >(IdentityError::UnknownUsbMode(v)),
{
}

} // verus!
