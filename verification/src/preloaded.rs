//! Secrets needed by the integration skills that ship with the application.
use vstd::prelude::*;
use crate::dynamic::{extract_secret_keys, tools_refs, DynamicSkillConfig};
use crate::ordered::{insert_sorted, strictly_sorted};
use crate::text::strings_view;

verus! {

/// Version of the shipped integration skill definitions; installations with
/// an older recorded version bootstrap them again.
pub const PRELOADED_SKILLS_VERSION: u32 = 1;

/// The secret names all the configs reference, config by config.
pub open spec fn configs_refs(configs: Seq<DynamicSkillConfig>) -> Seq<Seq<char>>
    decreases configs.len(),
{
    if configs.len() == 0 {
        Seq::empty()
    } else {
        configs_refs(configs.drop_last()) + tools_refs(configs.last().tools@)
    }
}

/// The secret names the shipped integration skills reference, sorted and
/// without repeats.
pub fn preloaded_secret_keys(configs: &[DynamicSkillConfig]) -> (keys: Vec<String>)
    ensures
        strictly_sorted(strings_view(keys@)),
        strings_view(keys@).to_set() == configs_refs(configs@).to_set(),
{
    let mut all: Vec<String> = Vec::new();
    let mut i: usize = 0;
    proof {
        assert(strings_view(all@) =~= Seq::<Seq<char>>::empty());
        assert(configs_refs(configs@.take(0)) =~= Seq::<Seq<char>>::empty());
    }
    while i < configs.len()
        invariant
            i <= configs@.len(),
            strictly_sorted(strings_view(all@)),
            strings_view(all@).to_set() == configs_refs(configs@.take(i as int)).to_set(),
        decreases configs@.len() - i,
    {
        assert(configs@.take(i + 1).drop_last() =~= configs@.take(i as int));
        let keys = extract_secret_keys(&configs[i]);
        let ghost before = strings_view(all@).to_set();
        let mut j: usize = 0;
        while j < keys.len()
            invariant
                j <= keys@.len(),
                strictly_sorted(strings_view(all@)),
                strings_view(all@).to_set() == before + strings_view(keys@.take(j as int)).to_set(),
            decreases keys@.len() - j,
        {
            proof {
                assert(strings_view(keys@.take(j + 1)) =~= strings_view(keys@.take(j as int)).push(keys@[j as int]@));
                vstd::seq_lib::seq_to_set_distributes_over_add(
                    strings_view(keys@.take(j as int)),
                    seq![keys@[j as int]@],
                );
                assert(strings_view(keys@.take(j as int)) + seq![keys@[j as int]@]
                    =~= strings_view(keys@.take(j + 1)));
                let a = keys@[j as int]@;
                assert forall|x: Seq<char>| seq![a].to_set().contains(x) <==> x == a by {
                    assert(seq![a][0] == a);
                    if seq![a].to_set().contains(x) {
                        assert(seq![a].contains(x));
                    }
                }
                assert(seq![a].to_set() =~= Set::empty().insert(a));
            }
            insert_sorted(&mut all, keys[j].clone());
            proof {
                assert(strings_view(all@).to_set() =~= before + strings_view(keys@.take(j + 1)).to_set());
            }
            j += 1;
        }
        proof {
            assert(keys@.take(keys@.len() as int) =~= keys@);
            vstd::seq_lib::seq_to_set_distributes_over_add(
                configs_refs(configs@.take(i as int)),
                tools_refs(configs@[i as int].tools@),
            );
            assert(strings_view(all@).to_set() =~= configs_refs(configs@.take(i + 1)).to_set());
        }
        i += 1;
    }
    assert(configs@.take(configs@.len() as int) =~= configs@);
    all
}

} // verus!
