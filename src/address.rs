use vstd::prelude::*;

use crate::key::Key;

verus! {

/// What `Pubkey::try_find_program_address` yields for `seeds` under the
/// program `program`: the derived address and its bump, or nothing.
pub uninterp spec fn program_address_of(seeds: Seq<Seq<u8>>, program: Seq<u8>) -> Option<
    (Seq<u8>, u8),
>;

/// Relies on anchor_lang's `Pubkey::try_find_program_address`: a pure
/// function of the seeds and the program key that returns the derived
/// address with its bump, or `None` when no bump yields one.
#[verifier::external_body]
fn try_find_address(seeds: &Vec<Vec<u8>>, program: &Key) -> (r: Option<(Key, u8)>)
    ensures
        r matches Some(p) ==> program_address_of(seeds.deep_view(), program@) == Some(
            (p.0@, p.1),
        ),
        r is None ==> program_address_of(seeds.deep_view(), program@) is None,
{
    let mut parts: Vec<&[u8]> = Vec::new();
    for s in seeds.iter() {
        parts.push(s.as_slice());
    }
    let program_id = anchor_lang::prelude::Pubkey::new_from_array(program.bytes);
    anchor_lang::prelude::Pubkey::try_find_program_address(&parts, &program_id).map(
        |(k, bump)| (Key { bytes: k.to_bytes() }, bump),
    )
}

/// Little-endian bytes of the low `k` bytes of `n`.
pub open spec fn le_bytes_spec(n: nat, k: nat) -> Seq<u8>
    decreases k,
{
    if k == 0 {
        seq![]
    } else {
        seq![(n % 256) as u8] + le_bytes_spec(n / 256, (k - 1) as nat)
    }
}

/// The eight little-endian bytes of `n`.
pub fn le_bytes(n: u64) -> (r: Vec<u8>)
    ensures
        r@ == le_bytes_spec(n as nat, 8),
{
    let mut out: Vec<u8> = Vec::new();
    let mut v: u64 = n;
    let mut i: usize = 0;
    while i < 8
        invariant
            i <= 8,
            out@ + le_bytes_spec(v as nat, (8 - i) as nat) == le_bytes_spec(n as nat, 8),
        decreases 8 - i,
    {
        let ghost before = out@;
        out.push((v % 256) as u8);
        assert(le_bytes_spec(v as nat, (8 - i) as nat) == seq![(v % 256) as u8] + le_bytes_spec(
            (v / 256) as nat,
            (8 - i - 1) as nat,
        ));
        assert(out@ + le_bytes_spec((v / 256) as nat, (8 - i - 1) as nat) =~= before
            + le_bytes_spec(v as nat, (8 - i) as nat));
        v = v / 256;
        i = i + 1;
    }
    assert(le_bytes_spec(v as nat, 0) =~= seq![]);
    assert(out@ =~= out@ + le_bytes_spec(v as nat, 0));
    out
}

/// Namespace tag of contest counters: the bytes of `contest_counter`.
pub open spec fn counter_tag() -> Seq<u8> {
    seq![99u8, 111, 110, 116, 101, 115, 116, 95, 99, 111, 117, 110, 116, 101, 114]
}

/// Namespace tag of contests: the bytes of `contest`.
pub open spec fn contest_tag() -> Seq<u8> {
    seq![99u8, 111, 110, 116, 101, 115, 116]
}

/// Namespace tag of participant records: the bytes of `participant`.
pub open spec fn participant_tag() -> Seq<u8> {
    seq![112u8, 97, 114, 116, 105, 99, 105, 112, 97, 110, 116]
}

/// Seeds of a contest owner's counter.
pub open spec fn counter_seeds(owner: Seq<u8>) -> Seq<Seq<u8>> {
    seq![counter_tag(), owner]
}

/// Seeds of the contest with identifier `id` created by `owner`.
pub open spec fn contest_seeds(owner: Seq<u8>, id: u64) -> Seq<Seq<u8>> {
    seq![contest_tag(), owner, le_bytes_spec(id as nat, 8)]
}

/// Seeds of the record of `participant` in the contest at `contest`.
pub open spec fn participant_seeds(contest: Seq<u8>, participant: Seq<u8>) -> Seq<Seq<u8>> {
    seq![participant_tag(), contest, participant]
}

proof fn lemma_deep_view_bytes(seeds: Vec<Vec<u8>>)
    ensures
        seeds.deep_view().len() == seeds@.len(),
        forall|i: int| 0 <= i < seeds@.len() ==> #[trigger] seeds.deep_view()[i] == seeds@[i]@,
{
    assert forall|i: int| 0 <= i < seeds@.len() implies #[trigger] seeds.deep_view()[i] == seeds@[i]@ by {
        assert(seeds.deep_view()[i] =~= seeds@[i]@);
    }
}

/// The derived address and bump of `owner`'s contest counter.
pub fn contest_counter_address(program: &Key, owner: &Key) -> (r: Option<(Key, u8)>)
    ensures
        r matches Some(p) ==> program_address_of(counter_seeds(owner@), program@) == Some(
            (p.0@, p.1),
        ),
        r is None ==> program_address_of(counter_seeds(owner@), program@) is None,
{
    let tag: Vec<u8> = vec![99u8, 111, 110, 116, 101, 115, 116, 95, 99, 111, 117, 110, 116, 101, 114];
    let seeds: Vec<Vec<u8>> = vec![tag, owner.to_seed()];
    proof {
        assert(tag@ =~= counter_tag());
        lemma_deep_view_bytes(seeds);
        assert(seeds.deep_view() =~= counter_seeds(owner@));
    }
    try_find_address(&seeds, program)
}

/// The derived address and bump of the contest numbered `contest_id` of `owner`.
pub fn contest_address(program: &Key, owner: &Key, contest_id: u64) -> (r: Option<(Key, u8)>)
    ensures
        r matches Some(p) ==> program_address_of(contest_seeds(owner@, contest_id), program@)
            == Some((p.0@, p.1)),
        r is None ==> program_address_of(contest_seeds(owner@, contest_id), program@) is None,
{
    let tag: Vec<u8> = vec![99u8, 111, 110, 116, 101, 115, 116];
    let seeds: Vec<Vec<u8>> = vec![tag, owner.to_seed(), le_bytes(contest_id)];
    proof {
        assert(tag@ =~= contest_tag());
        lemma_deep_view_bytes(seeds);
        assert(seeds.deep_view() =~= contest_seeds(owner@, contest_id));
    }
    try_find_address(&seeds, program)
}

/// The derived address and bump of `participant`'s record in the contest at
/// `contest`.
pub fn participant_address(program: &Key, contest: &Key, participant: &Key) -> (r: Option<
    (Key, u8),
>)
    ensures
        r matches Some(p) ==> program_address_of(
            participant_seeds(contest@, participant@),
            program@,
        ) == Some((p.0@, p.1)),
        r is None ==> program_address_of(participant_seeds(contest@, participant@), program@) is None,
{
    let tag: Vec<u8> = vec![112u8, 97, 114, 116, 105, 99, 105, 112, 97, 110, 116];
    let seeds: Vec<Vec<u8>> = vec![tag, contest.to_seed(), participant.to_seed()];
    proof {
        assert(tag@ =~= participant_tag());
        lemma_deep_view_bytes(seeds);
        assert(seeds.deep_view() =~= participant_seeds(contest@, participant@));
    }
    try_find_address(&seeds, program)
}

} // verus!
