use vstd::prelude::*;

verus! {

/// The arguments of the vault query: the vault (the agent's own where
/// absent) and the fields to show (all where absent).
pub struct DriftVaultInfoArgs {
    pub vault_address: Option<String>,
    pub requested_fields: Option<Vec<String>>,
}

/// The tool that reads a vault's state.
#[derive(Debug, Clone, Copy, PartialEq, Eq, Structural)]
pub struct DriftVaultInfo;

/// A pending withdrawal of a vault.
#[derive(Debug, Clone, Copy, PartialEq, Eq, Structural)]
pub struct WithdrawRequest {
    pub shares: u128,
    pub value: u64,
    pub ts: i64,
}

/// Whether byte `b` is shown in a vault's name: a printable ASCII
/// character other than space, or ASCII whitespace.
pub open spec fn name_byte_shown(b: u8) -> bool {
    (0x21 <= b <= 0x7e) || b == 0x20 || b == 0x09 || b == 0x0a || b == 0x0c || b == 0x0d
}

/// The bytes of `s` that are shown, in order.
pub open spec fn shown_name(s: Seq<u8>) -> Seq<u8>
    decreases s.len(),
{
    if s.len() == 0 {
        Seq::empty()
    } else if name_byte_shown(s.last()) {
        shown_name(s.drop_last()).push(s.last())
    } else {
        shown_name(s.drop_last())
    }
}

impl DriftVaultInfo {
    /// The readable part of a vault's fixed-size name field: its printable
    /// ASCII bytes and ASCII whitespace, in order; padding and other bytes
    /// are dropped.
    pub fn vault_name(name: &[u8; 32]) -> (r: Vec<u8>)
        ensures
            r@ == shown_name(name@),
    {
        let mut out: Vec<u8> = Vec::new();
        let mut i: usize = 0;
        while i < 32
            invariant
                name@.len() == 32,
                i <= 32,
                out@ == shown_name(name@.take(i as int)),
            decreases 32 - i,
        {
            let b = name[i];
            assert(name@.take(i + 1).drop_last() =~= name@.take(i as int));
            if (0x21 <= b && b <= 0x7e) || b == 0x20 || b == 0x09 || b == 0x0a || b == 0x0c || b
                == 0x0d {
                out.push(b);
            }
            i = i + 1;
        }
        assert(name@.take(32) =~= name@);
        out
    }
}

} // verus!
