//! Optional codec backends and their native init bitmask.
//!
//! Initialization hands the native library a single bitmask built from the
//! requested backends and gets back the bitmask of backends actually
//! activated. The functions here do the two verified halves of that
//! exchange: folding a request into a mask, and reading the answer back as
//! the activated subset of the request. Backends the native build lacks are
//! silently absent from the answer; that is not an error.

use vstd::prelude::*;

verus! {

/// One optional codec backend the native library may activate.
#[derive(Clone, Copy, Debug, PartialEq, Eq, Structural)]
pub enum InitFlag {
    InitJpg,
    InitPng,
    InitTif,
    InitWebp,
}

impl InitFlag {
    /// The native bit that stands for this backend in an init bitmask.
    pub open spec fn mask_spec(self) -> u32 {
        match self {
            InitFlag::InitJpg => 1u32,
            InitFlag::InitPng => 2u32,
            InitFlag::InitTif => 4u32,
            InitFlag::InitWebp => 8u32,
        }
    }

    /// The explicit mapping from backend to native bitmask bit.
    pub fn mask(self) -> (r: u32)
        ensures
            r == self.mask_spec(),
    {
        match self {
            InitFlag::InitJpg => 1,
            InitFlag::InitPng => 2,
            InitFlag::InitTif => 4,
            InitFlag::InitWebp => 8,
        }
    }
}

/// The bitmask that requests every backend in `s`.
pub open spec fn mask_of(s: Seq<InitFlag>) -> u32
    decreases s.len(),
{
    if s.len() == 0 {
        0u32
    } else {
        mask_of(s.drop_last()) | s.last().mask_spec()
    }
}

/// Whether the bitmask the native initializer returned marks `f` active.
pub open spec fn flag_active(f: InitFlag, used_mask: u32) -> bool {
    f.mask_spec() & used_mask != 0
}

/// The requested flags the native initializer reports active, in request
/// order, duplicates kept.
pub open spec fn activated_spec(requested: Seq<InitFlag>, used_mask: u32) -> Seq<InitFlag> {
    requested.filter(|f: InitFlag| flag_active(f, used_mask))
}

/// Folds the requested backends into the one bitmask handed to the native
/// initializer.
pub fn flags_to_mask(flags: &Vec<InitFlag>) -> (mask: u32)
    ensures
        mask == mask_of(flags@),
{
    let mut mask: u32 = 0;
    let mut i: usize = 0;
    while i < flags.len()
        invariant
            i <= flags.len(),
            mask == mask_of(flags@.take(i as int)),
        decreases flags.len() - i,
    {
        proof {
            assert(flags@.take(i as int + 1).drop_last() =~= flags@.take(i as int));
            assert(flags@.take(i as int + 1).last() == flags@[i as int]);
        }
        mask = mask | flags[i].mask();
        i = i + 1;
    }
    proof {
        assert(flags@.take(flags@.len() as int) =~= flags@);
    }
    mask
}

/// The step `activated_spec` takes when one more requested flag is read
/// against the native initializer's answer.
proof fn lemma_activated_push(s: Seq<InitFlag>, f: InitFlag, used_mask: u32)
    ensures
        activated_spec(s.push(f), used_mask) == (if flag_active(f, used_mask) {
            activated_spec(s, used_mask).push(f)
        } else {
            activated_spec(s, used_mask)
        }),
{
    reveal(Seq::filter);
    assert(s.push(f).drop_last() =~= s);
    assert(s.push(f).last() == f);
}

/// Reads the native initializer's answer back as the subset of the request
/// it marks active, in request order, duplicates kept.
pub fn activated_flags(requested: &Vec<InitFlag>, used_mask: u32) -> (r: Vec<InitFlag>)
    ensures
        r@ == activated_spec(requested@, used_mask),
{
    let mut r: Vec<InitFlag> = Vec::new();
    let mut i: usize = 0;
    while i < requested.len()
        invariant
            i <= requested.len(),
            r@ == activated_spec(requested@.take(i as int), used_mask),
        decreases requested.len() - i,
    {
        let f = requested[i];
        proof {
            assert(requested@.take(i as int + 1) =~= requested@.take(i as int).push(f));
            lemma_activated_push(requested@.take(i as int), f, used_mask);
        }
        if f.mask() & used_mask != 0 {
            r.push(f);
        }
        i = i + 1;
    }
    proof {
        assert(requested@.take(requested@.len() as int) =~= requested@);
    }
    r
}

/// Flag subset law: whatever bitmask the native initializer reports, every
/// flag in the activated set was requested; no flag appears in the answer
/// that was not in the request.
pub proof fn lemma_activated_subset(requested: Seq<InitFlag>, used_mask: u32)
    ensures
        forall|f: InitFlag|
            #[trigger] activated_spec(requested, used_mask).contains(f) ==> requested.contains(f),
    decreases requested.len(),
{
    reveal(Seq::filter);
    if requested.len() > 0 {
        let pre = requested.drop_last();
        let act = activated_spec(requested, used_mask);
        let pre_act = activated_spec(pre, used_mask);
        lemma_activated_subset(pre, used_mask);
        assert forall|f: InitFlag| #[trigger] act.contains(f) implies requested.contains(f) by {
            let j = choose|j: int| 0 <= j < act.len() && act[j] == f;
            if j < pre_act.len() {
                assert(pre_act.contains(f)) by {
                    assert(pre_act[j] == f);
                }
                assert(pre.contains(f));
                let k = choose|k: int| 0 <= k < pre.len() && pre[k] == f;
                assert(requested[k] == f);
            } else {
                assert(act[j] == requested.last());
                assert(requested[requested.len() - 1] == f);
            }
        }
    }
}

} // verus!
