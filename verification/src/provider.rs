//! Precompile resolution of the Arc execution layer: Ethereum's standard
//! precompiles for the active spec, extended with Arc's stateful system
//! precompiles (native-coin authority, native-coin control, system
//! accounting), which answer under every hardfork configuration, and with the
//! PQ signature precompile once the Zero6 hardfork is active.
use vstd::prelude::*;
use crate::pq::PQ_ADDRESS;

verus! {

/// Arc hardforks that the precompile set depends on.
#[derive(PartialEq, Eq, Structural, Clone, Copy, Debug)]
pub enum ArcHardfork {
    Zero5,
    Zero6,
}

/// The set of active Arc hardforks.
#[derive(Clone, Copy, Debug)]
pub struct ArcHardforkFlags {
    zero5: bool,
    zero6: bool,
}

impl ArcHardforkFlags {
    /// Whether hardfork `h` is active.
    pub closed spec fn spec_is_active(self, h: ArcHardfork) -> bool {
        match h {
            ArcHardfork::Zero5 => self.zero5,
            ArcHardfork::Zero6 => self.zero6,
        }
    }

    /// Flags with exactly the listed hardforks active.
    pub fn with(forks: &[ArcHardfork]) -> (f: Self)
        ensures
            forall|h: ArcHardfork| f.spec_is_active(h) <==> forks@.contains(h),
    {
        let mut f = ArcHardforkFlags { zero5: false, zero6: false };
        let mut i: usize = 0;
        while i < forks.len()
            invariant
                0 <= i <= forks@.len(),
                forall|h: ArcHardfork| f.spec_is_active(h) <==> forks@.subrange(0, i as int).contains(h),
            decreases forks@.len() - i,
        {
            let h = forks[i];
            let ghost old_f = f;
            match h {
                ArcHardfork::Zero5 => { f.zero5 = true; },
                ArcHardfork::Zero6 => { f.zero6 = true; },
            }
            proof {
                let prev = forks@.subrange(0, i as int);
                let next = forks@.subrange(0, i + 1);
                assert(next == prev.push(h));
                assert forall|g: ArcHardfork| f.spec_is_active(g) == (old_f.spec_is_active(g) || g == h) by {}
                assert forall|g: ArcHardfork| next.contains(g) <==> (prev.contains(g) || g == h) by {
                    if next.contains(g) {
                        let k = choose|k: int| 0 <= k < next.len() && next[k] == g;
                        if k < prev.len() {
                            assert(prev[k] == g);
                        }
                    }
                    if prev.contains(g) {
                        let k = choose|k: int| 0 <= k < prev.len() && prev[k] == g;
                        assert(next[k] == g);
                    }
                    if g == h {
                        assert(next[i as int] == g);
                    }
                }
            }
            i = i + 1;
        }
        assert(forks@.subrange(0, forks@.len() as int) == forks@);
        f
    }

    /// Whether hardfork `h` is active.
    pub fn is_active(&self, h: ArcHardfork) -> (b: bool)
        ensures
            b == self.spec_is_active(h),
    {
        match h {
            ArcHardfork::Zero5 => self.zero5,
            ArcHardfork::Zero6 => self.zero6,
        }
    }
}

impl Default for ArcHardforkFlags {
    /// No hardfork active.
    fn default() -> (f: Self)
        ensures
            forall|h: ArcHardfork| !f.spec_is_active(h),
    {
        ArcHardforkFlags { zero5: false, zero6: false }
    }
}

/// Whether `revm`'s standard precompile set for the spec numbered `spec`
/// (`SpecId as u8`) has a precompile at `address`.
pub uninterp spec fn standard_precompile_exists(spec: u8, address: Seq<u8>) -> bool;

/// Looks `address` up in `revm`'s standard precompiles
/// (`Precompiles::new(PrecompileSpecId::from_spec_id(spec)).contains(address)`),
/// the spec given by its number as converted by `SpecId::try_from_u8`; a
/// number that names no spec has no precompiles. Trusted: the answer is the
/// named `standard_precompile_exists` of the arguments.
#[verifier::external_body]
fn standard_precompile_at(spec: u8, address: &[u8; 20]) -> (r: bool)
    ensures
        r == standard_precompile_exists(spec, address@),
{
    match revm::primitives::hardfork::SpecId::try_from_u8(spec) {
        Some(spec_id) => revm::precompile::Precompiles::new(
            revm::precompile::PrecompileSpecId::from_spec_id(spec_id),
        ).contains(&alloy_primitives::Address::from(*address)),
        None => false,
    }
}

/// Which precompile answers at an address.
#[derive(PartialEq, Eq, Structural, Clone, Copy, Debug)]
pub enum ArcPrecompile {
    /// One of Ethereum's standard precompiles for the spec.
    Standard,
    /// The stateful native-coin authority precompile.
    NativeCoinAuthority,
    /// The stateful native-coin control precompile.
    NativeCoinControl,
    /// The stateful system-accounting precompile.
    SystemAccounting,
    /// The SLH-DSA-SHA2-128s signature verifier.
    Pq,
}

/// Addresses of Arc's three stateful system precompiles, which answer under
/// every hardfork configuration.
#[derive(Clone, Copy, Debug)]
pub struct ArcSystemPrecompiles {
    pub native_coin_authority: [u8; 20],
    pub native_coin_control: [u8; 20],
    pub system_accounting: [u8; 20],
}

/// Precompile at `address` for spec number `spec` under `flags`: a standard
/// precompile first; then, in this order, the native-coin authority, the
/// native-coin control and the system-accounting precompiles at their
/// addresses, whatever the hardforks; then the PQ precompile at its
/// address, present only while Zero6 is active; otherwise none.
pub open spec fn arc_precompile_at(
    spec: u8,
    flags: ArcHardforkFlags,
    system: ArcSystemPrecompiles,
    address: Seq<u8>,
) -> Option<ArcPrecompile> {
    if standard_precompile_exists(spec, address) {
        Some(ArcPrecompile::Standard)
    } else if address == system.native_coin_authority@ {
        Some(ArcPrecompile::NativeCoinAuthority)
    } else if address == system.native_coin_control@ {
        Some(ArcPrecompile::NativeCoinControl)
    } else if address == system.system_accounting@ {
        Some(ArcPrecompile::SystemAccounting)
    } else if address == PQ_ADDRESS@ && flags.spec_is_active(ArcHardfork::Zero6) {
        Some(ArcPrecompile::Pq)
    } else {
        None
    }
}

/// The PQ precompile answers at its address exactly while Zero6 is active
/// (whatever else is active), unless a standard or a system precompile holds
/// that address.
pub proof fn lemma_pq_only_under_zero6(spec: u8, flags: ArcHardforkFlags, system: ArcSystemPrecompiles)
    ensures
        !standard_precompile_exists(spec, PQ_ADDRESS@)
            && PQ_ADDRESS@ != system.native_coin_authority@
            && PQ_ADDRESS@ != system.native_coin_control@
            && PQ_ADDRESS@ != system.system_accounting@ ==> {
            &&& (arc_precompile_at(spec, flags, system, PQ_ADDRESS@) == Some(ArcPrecompile::Pq)
                <==> flags.spec_is_active(ArcHardfork::Zero6))
            &&& (arc_precompile_at(spec, flags, system, PQ_ADDRESS@) is None
                <==> !flags.spec_is_active(ArcHardfork::Zero6))
        },
{
}

/// The system precompiles answer at their addresses under every hardfork
/// configuration, and nothing answers at an address that is neither a
/// standard, a system nor the PQ address.
pub proof fn lemma_system_precompiles_always_answer(
    spec: u8,
    flags: ArcHardforkFlags,
    system: ArcSystemPrecompiles,
    address: Seq<u8>,
)
    requires
        !standard_precompile_exists(spec, address),
    ensures
        address == system.native_coin_authority@
            ==> arc_precompile_at(spec, flags, system, address) == Some(ArcPrecompile::NativeCoinAuthority),
        address != system.native_coin_authority@ && address == system.native_coin_control@
            ==> arc_precompile_at(spec, flags, system, address) == Some(ArcPrecompile::NativeCoinControl),
        address != system.native_coin_authority@ && address != system.native_coin_control@
            && address == system.system_accounting@
            ==> arc_precompile_at(spec, flags, system, address) == Some(ArcPrecompile::SystemAccounting),
        address != system.native_coin_authority@ && address != system.native_coin_control@
            && address != system.system_accounting@ && address != PQ_ADDRESS@
            ==> arc_precompile_at(spec, flags, system, address) is None,
{
}

/// Whether two addresses are the same.
fn same_address(a: &[u8; 20], b: &[u8; 20]) -> (r: bool)
    ensures
        r == (a@ == b@),
{
    let mut i: usize = 0;
    while i < 20
        invariant
            0 <= i <= 20,
            forall|k: int| 0 <= k < i ==> a@[k] == b@[k],
        decreases 20 - i,
    {
        if a[i] != b[i] {
            assert(a@[i as int] != b@[i as int]);
            return false;
        }
        i = i + 1;
    }
    assert(a@ =~= b@);
    true
}

/// The precompiles of one spec and hardfork configuration.
pub struct ArcPrecompilesMap {
    spec: u8,
    hardfork_flags: ArcHardforkFlags,
    system: ArcSystemPrecompiles,
}

impl ArcPrecompilesMap {
    pub closed spec fn spec_spec(self) -> u8 {
        self.spec
    }

    /// The hardforks the map was made for; every Arc precompile of the map
    /// runs under them.
    pub closed spec fn spec_flags(self) -> ArcHardforkFlags {
        self.hardfork_flags
    }

    pub closed spec fn spec_system(self) -> ArcSystemPrecompiles {
        self.system
    }

    /// The hardforks the Arc precompiles of this map run under.
    pub fn hardfork_flags(&self) -> (f: ArcHardforkFlags)
        ensures
            f == self.spec_flags(),
    {
        self.hardfork_flags
    }

    /// The precompile answering at `address`, if any.
    pub fn get(&self, address: &[u8; 20]) -> (r: Option<ArcPrecompile>)
        ensures
            r == arc_precompile_at(self.spec_spec(), self.spec_flags(), self.spec_system(), address@),
            standard_precompile_exists(self.spec_spec(), address@) ==> r == Some(ArcPrecompile::Standard),
            address@ == PQ_ADDRESS@ && !standard_precompile_exists(self.spec_spec(), address@)
                && address@ != self.spec_system().native_coin_authority@
                && address@ != self.spec_system().native_coin_control@
                && address@ != self.spec_system().system_accounting@ ==> {
                &&& (r == Some(ArcPrecompile::Pq) <==> self.spec_flags().spec_is_active(ArcHardfork::Zero6))
                &&& (r is None <==> !self.spec_flags().spec_is_active(ArcHardfork::Zero6))
            },
    {
        proof {
            lemma_pq_only_under_zero6(self.spec_spec(), self.spec_flags(), self.spec_system());
        }
        if standard_precompile_at(self.spec, address) {
            return Some(ArcPrecompile::Standard);
        }
        if same_address(address, &self.system.native_coin_authority) {
            return Some(ArcPrecompile::NativeCoinAuthority);
        }
        if same_address(address, &self.system.native_coin_control) {
            return Some(ArcPrecompile::NativeCoinControl);
        }
        if same_address(address, &self.system.system_accounting) {
            return Some(ArcPrecompile::SystemAccounting);
        }
        if same_address(address, &PQ_ADDRESS) && self.hardfork_flags.is_active(ArcHardfork::Zero6) {
            Some(ArcPrecompile::Pq)
        } else {
            None
        }
    }
}

/// Precompile provider extending Ethereum's standard precompiles with Arc
/// functionality.
#[derive(Debug)]
pub struct ArcPrecompileProvider;

impl ArcPrecompileProvider {
    /// The P256 (secp256r1) precompile address of EIP-7212, `0x…0100`;
    /// Ethereum provides it from the Osaka hardfork on.
    pub const P256_PRECOMPILE_ADDRESS: [u8; 20] = [
        0u8, 0u8, 0u8, 0u8, 0u8, 0u8, 0u8, 0u8, 0u8, 0u8,
        0u8, 0u8, 0u8, 0u8, 0u8, 0u8, 0u8, 0u8, 0x01u8, 0x00u8,
    ];

    /// The precompiles for spec number `spec` (`SpecId as u8`) and the active
    /// hardforks, with Arc's system precompiles at the addresses `system`.
    pub fn create_precompiles_map(
        spec: u8,
        hardfork_flags: ArcHardforkFlags,
        system: ArcSystemPrecompiles,
    ) -> (m: ArcPrecompilesMap)
        ensures
            m.spec_spec() == spec,
            m.spec_flags() == hardfork_flags,
            m.spec_system() == system,
    {
        ArcPrecompilesMap { spec, hardfork_flags, system }
    }
}

} // verus!
