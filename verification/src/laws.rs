use vstd::prelude::*;
use crate::registry::{InstantModel, spec_elapsed_secs};
use crate::timefmt::spec_mm_ss;

verus! {

/// Law: an instant looked up at the very moment of its creation reports
/// exactly the label it was created with, and a zero elapsed duration,
/// rendered as `00:00`.
///
/// A successful `create` turns the registry's map `m` into
/// `m.insert(id, InstantModel { label, created_at_millis })`, and `elapsed`
/// on a registered identifier reports the stored label together with
/// `spec_mm_ss(spec_elapsed_secs(created_at_millis, now_millis))`; this law
/// connects the two at the creation instant itself.
pub proof fn lemma_created_instant_elapses_zero(
    m: Map<Seq<char>, InstantModel>,
    id: Seq<char>,
    label: Seq<char>,
    now_millis: u64,
)
    ensures
        ({
            let after = m.insert(id, InstantModel { label, created_at_millis: now_millis });
            &&& after.contains_key(id)
            &&& after[id].label == label
            &&& spec_mm_ss(spec_elapsed_secs(after[id].created_at_millis, now_millis))
                == "00:00"@
        }),
{
    reveal_strlit("00:00");
    assert(spec_elapsed_secs(now_millis, now_millis) == 0);
    assert(spec_mm_ss(0) =~= "00:00"@);
}

/// Law: a zero elapsed duration stays rendered as `00:00` for a short while
/// after creation — any reading within the same whole second of the
/// monotonic clock still renders as `00:00`.
pub proof fn lemma_small_jitter_still_zero(created_at_millis: u64, now_millis: u64)
    requires
        created_at_millis <= now_millis,
        now_millis - created_at_millis < 1000,
    ensures
        spec_mm_ss(spec_elapsed_secs(created_at_millis, now_millis)) == "00:00"@,
{
    reveal_strlit("00:00");
    assert(spec_elapsed_secs(created_at_millis, now_millis) == 0);
    assert(spec_mm_ss(0) =~= "00:00"@);
}
/// Law: a lookup is read-only and repeatable. `elapsed` borrows the registry
/// immutably, so it cannot change it; and its successful report is a function
/// of the registry's abstract map, the identifier and the clock reading
/// alone, so any number of lookups in a row of the same identifier against
/// the same registry state report the same label and the same rendered
/// duration, and the identifier stays registered for the next call.
pub proof fn lemma_elapsed_is_repeatable(
    m: Map<Seq<char>, InstantModel>,
    id: Seq<char>,
    now_millis: u64,
    label_a: Seq<char>,
    formatted_a: Seq<char>,
    label_b: Seq<char>,
    formatted_b: Seq<char>,
)
    requires
        m.contains_key(id),
        label_a == m[id].label,
        formatted_a == spec_mm_ss(spec_elapsed_secs(m[id].created_at_millis, now_millis)),
        label_b == m[id].label,
        formatted_b == spec_mm_ss(spec_elapsed_secs(m[id].created_at_millis, now_millis)),
    ensures
        label_a == label_b,
        formatted_a == formatted_b,
{
}

/// Law: creating one instant never disturbs another. Registering a fresh
/// identifier leaves every already-registered identifier present with its
/// entry unchanged, and registers the fresh one; so however many creates
/// succeed, each resulting identifier stays independently resolvable.
pub proof fn lemma_create_preserves_other_instants(
    m: Map<Seq<char>, InstantModel>,
    fresh_id: Seq<char>,
    fresh_entry: InstantModel,
    other: Seq<char>,
)
    requires
        !m.contains_key(fresh_id),
        m.contains_key(other),
    ensures
        m.insert(fresh_id, fresh_entry).contains_key(other),
        m.insert(fresh_id, fresh_entry)[other] == m[other],
        m.insert(fresh_id, fresh_entry).contains_key(fresh_id),
        m.insert(fresh_id, fresh_entry)[fresh_id] == fresh_entry,
{
    assert(other != fresh_id);
}

} // verus!
