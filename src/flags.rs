//! Bit masks over `u32` that steer the launch service and the handler
//! registry.
use vstd::prelude::*;

verus! {

/// The decimal digits of `n`, most significant first, without leading zeros.
pub open spec fn decimal(n: nat) -> Seq<char>
    decreases n,
{
    let d = ((n % 10) as u8 + 48) as char;
    if n < 10 {
        seq![d]
    } else {
        decimal(n / 10).push(d)
    }
}

/// Relies on the `Display` impl of `u32` behind `ToString::to_string`: the
/// number in decimal digits.
#[verifier::external_body]
fn decimal_string(n: u32) -> (r: String)
    ensures
        r@ == decimal(n as nat),
{
    n.to_string()
}

/// Options of a launch request, one bit each.
#[derive(Copy, Clone, PartialEq, Eq, Structural, Hash, Debug)]
pub struct LSLaunchFlags(pub u32);

impl LSLaunchFlags {
    /// Launch as the system does by default.
    pub fn defaults() -> (r: LSLaunchFlags)
        ensures
            r.0 == 0x00000001,
    {
        LSLaunchFlags(0x00000001)
    }

    /// Print the documents once launched.
    pub fn launch_and_prints() -> (r: LSLaunchFlags)
        ensures
            r.0 == 0x00000002,
    {
        LSLaunchFlags(0x00000002)
    }

    /// Report launch failures to the user.
    pub fn launch_and_display_errors() -> (r: LSLaunchFlags)
        ensures
            r.0 == 0x00000040,
    {
        LSLaunchFlags(0x00000040)
    }

    /// Keep the launch out of the recent items.
    pub fn launch_dont_add_to_recents() -> (r: LSLaunchFlags)
        ensures
            r.0 == 0x00000100,
    {
        LSLaunchFlags(0x00000100)
    }

    /// Launch without bringing the application to the front.
    pub fn launch_dont_switch() -> (r: LSLaunchFlags)
        ensures
            r.0 == 0x00000200,
    {
        LSLaunchFlags(0x00000200)
    }

    /// Return without waiting for the application to finish launching.
    pub fn launch_async() -> (r: LSLaunchFlags)
        ensures
            r.0 == 0x00010000,
    {
        LSLaunchFlags(0x00010000)
    }

    /// Start a new instance even where one runs already.
    pub fn launch_new_instance() -> (r: LSLaunchFlags)
        ensures
            r.0 == 0x00080000,
    {
        LSLaunchFlags(0x00080000)
    }

    /// Hide the application once launched.
    pub fn launch_and_hide() -> (r: LSLaunchFlags)
        ensures
            r.0 == 0x00100000,
    {
        LSLaunchFlags(0x00100000)
    }

    /// Hide the other applications once launched.
    pub fn launch_and_hide_others() -> (r: LSLaunchFlags)
        ensures
            r.0 == 0x00200000,
    {
        LSLaunchFlags(0x00200000)
    }

    /// The flags set in either mask.
    pub open spec fn spec_or(self, rhs: LSLaunchFlags) -> LSLaunchFlags {
        LSLaunchFlags(self.0 | rhs.0)
    }

    /// The flags set in both masks.
    pub open spec fn spec_and(self, rhs: LSLaunchFlags) -> LSLaunchFlags {
        LSLaunchFlags(self.0 & rhs.0)
    }

    /// The flags set in exactly one of the masks.
    pub open spec fn spec_xor(self, rhs: LSLaunchFlags) -> LSLaunchFlags {
        LSLaunchFlags(self.0 ^ rhs.0)
    }

    /// The raw bits of the mask.
    pub fn bits(self) -> (r: u32)
        ensures
            r == self.0,
    {
        self.0
    }

    /// The raw bits of the mask as a decimal number.
    pub fn to_string(&self) -> (r: String)
        ensures
            r@ == decimal(self.0 as nat),
    {
        decimal_string(self.0)
    }
}

impl core::ops::BitOr for LSLaunchFlags {
    type Output = Self;

    fn bitor(self, rhs: Self) -> (r: Self)
        ensures
            r == self.spec_or(rhs),
    {
        LSLaunchFlags(self.0 | rhs.0)
    }
}

impl vstd::std_specs::ops::BitOrSpecImpl for LSLaunchFlags {
    open spec fn obeys_bitor_spec() -> bool {
        true
    }

    open spec fn bitor_req(self, rhs: LSLaunchFlags) -> bool {
        true
    }

    open spec fn bitor_spec(self, rhs: LSLaunchFlags) -> LSLaunchFlags {
        self.spec_or(rhs)
    }
}

impl core::ops::BitAnd for LSLaunchFlags {
    type Output = Self;

    fn bitand(self, rhs: Self) -> (r: Self)
        ensures
            r == self.spec_and(rhs),
    {
        LSLaunchFlags(self.0 & rhs.0)
    }
}

impl vstd::std_specs::ops::BitAndSpecImpl for LSLaunchFlags {
    open spec fn obeys_bitand_spec() -> bool {
        true
    }

    open spec fn bitand_req(self, rhs: LSLaunchFlags) -> bool {
        true
    }

    open spec fn bitand_spec(self, rhs: LSLaunchFlags) -> LSLaunchFlags {
        self.spec_and(rhs)
    }
}

impl core::ops::BitXor for LSLaunchFlags {
    type Output = Self;

    fn bitxor(self, rhs: Self) -> (r: Self)
        ensures
            r == self.spec_xor(rhs),
    {
        LSLaunchFlags(self.0 ^ rhs.0)
    }
}

impl vstd::std_specs::ops::BitXorSpecImpl for LSLaunchFlags {
    open spec fn obeys_bitxor_spec() -> bool {
        true
    }

    open spec fn bitxor_req(self, rhs: LSLaunchFlags) -> bool {
        true
    }

    open spec fn bitxor_spec(self, rhs: LSLaunchFlags) -> LSLaunchFlags {
        self.spec_xor(rhs)
    }
}

impl From<LSLaunchFlags> for u32 {
    fn from(f: LSLaunchFlags) -> (r: u32) {
        f.0
    }
}

impl vstd::std_specs::convert::FromSpecImpl<LSLaunchFlags> for u32 {
    open spec fn obeys_from_spec() -> bool {
        true
    }

    open spec fn from_spec(f: LSLaunchFlags) -> u32 {
        f.0
    }
}

/// Combining launch flags with `|` or with `&` does not depend on the order
/// of the operands, nor on how the operands are grouped.
pub proof fn lemma_launch_flags_combination(a: LSLaunchFlags, b: LSLaunchFlags, c: LSLaunchFlags)
    ensures
        a.spec_or(b) == b.spec_or(a),
        a.spec_or(b).spec_or(c) == a.spec_or(b.spec_or(c)),
        a.spec_and(b) == b.spec_and(a),
        a.spec_and(b).spec_and(c) == a.spec_and(b.spec_and(c)),
{
    let (x, y, z) = (a.0, b.0, c.0);
    assert(x | y == y | x) by (bit_vector);
    assert((x | y) | z == x | (y | z)) by (bit_vector);
    assert(x & y == y & x) by (bit_vector);
    assert((x & y) & z == x & (y & z)) by (bit_vector);
}

/// The roles in which an application may handle a kind of content, one bit
/// each.
#[derive(Copy, Clone, PartialEq, Eq, Structural, Hash, Debug)]
pub struct LSRolesMask(pub u32);

impl LSRolesMask {
    /// No role.
    pub fn none() -> (r: LSRolesMask)
        ensures
            r.0 == 0x00000001,
    {
        LSRolesMask(0x00000001)
    }

    /// The viewer role.
    pub fn viewer() -> (r: LSRolesMask)
        ensures
            r.0 == 0x00000002,
    {
        LSRolesMask(0x00000002)
    }

    /// The editor role.
    pub fn editor() -> (r: LSRolesMask)
        ensures
            r.0 == 0x00000004,
    {
        LSRolesMask(0x00000004)
    }

    /// The shell role.
    pub fn shell() -> (r: LSRolesMask)
        ensures
            r.0 == 0x00000008,
    {
        LSRolesMask(0x00000008)
    }

    /// Every role.
    pub fn all() -> (r: LSRolesMask)
        ensures
            r.0 == 0xffffffff,
    {
        LSRolesMask(0xffffffff)
    }

    /// The roles set in either mask.
    pub open spec fn spec_or(self, rhs: LSRolesMask) -> LSRolesMask {
        LSRolesMask(self.0 | rhs.0)
    }

    /// The roles set in both masks.
    pub open spec fn spec_and(self, rhs: LSRolesMask) -> LSRolesMask {
        LSRolesMask(self.0 & rhs.0)
    }

    /// The roles set in exactly one of the masks.
    pub open spec fn spec_xor(self, rhs: LSRolesMask) -> LSRolesMask {
        LSRolesMask(self.0 ^ rhs.0)
    }

    /// The raw bits of the mask.
    pub fn bits(self) -> (r: u32)
        ensures
            r == self.0,
    {
        self.0
    }

    /// The raw bits of the mask as a decimal number.
    pub fn to_string(&self) -> (r: String)
        ensures
            r@ == decimal(self.0 as nat),
    {
        decimal_string(self.0)
    }
}

impl core::ops::BitOr for LSRolesMask {
    type Output = Self;

    fn bitor(self, rhs: Self) -> (r: Self)
        ensures
            r == self.spec_or(rhs),
    {
        LSRolesMask(self.0 | rhs.0)
    }
}

impl vstd::std_specs::ops::BitOrSpecImpl for LSRolesMask {
    open spec fn obeys_bitor_spec() -> bool {
        true
    }

    open spec fn bitor_req(self, rhs: LSRolesMask) -> bool {
        true
    }

    open spec fn bitor_spec(self, rhs: LSRolesMask) -> LSRolesMask {
        self.spec_or(rhs)
    }
}

impl core::ops::BitAnd for LSRolesMask {
    type Output = Self;

    fn bitand(self, rhs: Self) -> (r: Self)
        ensures
            r == self.spec_and(rhs),
    {
        LSRolesMask(self.0 & rhs.0)
    }
}

impl vstd::std_specs::ops::BitAndSpecImpl for LSRolesMask {
    open spec fn obeys_bitand_spec() -> bool {
        true
    }

    open spec fn bitand_req(self, rhs: LSRolesMask) -> bool {
        true
    }

    open spec fn bitand_spec(self, rhs: LSRolesMask) -> LSRolesMask {
        self.spec_and(rhs)
    }
}

impl core::ops::BitXor for LSRolesMask {
    type Output = Self;

    fn bitxor(self, rhs: Self) -> (r: Self)
        ensures
            r == self.spec_xor(rhs),
    {
        LSRolesMask(self.0 ^ rhs.0)
    }
}

impl vstd::std_specs::ops::BitXorSpecImpl for LSRolesMask {
    open spec fn obeys_bitxor_spec() -> bool {
        true
    }

    open spec fn bitxor_req(self, rhs: LSRolesMask) -> bool {
        true
    }

    open spec fn bitxor_spec(self, rhs: LSRolesMask) -> LSRolesMask {
        self.spec_xor(rhs)
    }
}

impl From<LSRolesMask> for u32 {
    fn from(f: LSRolesMask) -> (r: u32) {
        f.0
    }
}

impl vstd::std_specs::convert::FromSpecImpl<LSRolesMask> for u32 {
    open spec fn obeys_from_spec() -> bool {
        true
    }

    open spec fn from_spec(f: LSRolesMask) -> u32 {
        f.0
    }
}

/// Combining role masks with `|` or with `&` does not depend on the order of
/// the operands, nor on how the operands are grouped.
pub proof fn lemma_roles_mask_combination(a: LSRolesMask, b: LSRolesMask, c: LSRolesMask)
    ensures
        a.spec_or(b) == b.spec_or(a),
        a.spec_or(b).spec_or(c) == a.spec_or(b.spec_or(c)),
        a.spec_and(b) == b.spec_and(a),
        a.spec_and(b).spec_and(c) == a.spec_and(b.spec_and(c)),
{
    let (x, y, z) = (a.0, b.0, c.0);
    assert(x | y == y | x) by (bit_vector);
    assert((x | y) | z == x | (y | z)) by (bit_vector);
    assert(x & y == y & x) by (bit_vector);
    assert((x & y) & z == x & (y & z)) by (bit_vector);
}

} // verus!
