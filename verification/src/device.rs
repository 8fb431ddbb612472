//! Input devices as the host lists them, and the choice of one by its label.

use vstd::prelude::*;
use crate::error::AudioError;

verus! {

/// An input device as shown to the caller. A device has no identity beyond
/// its name: the label is the name, and so is the identifier.
#[derive(Debug, Clone, PartialEq, Eq)]
pub struct AudioDevice {
    pub id: String,
    pub label: String,
}

/// The names of the devices whose descriptor could be read, in the host's
/// order. `None` stands for a device whose descriptor could not be read.
pub open spec fn readable_names(names: Seq<Option<String>>) -> Seq<Seq<char>>
    decreases names.len(),
{
    if names.len() == 0 {
        Seq::empty()
    } else {
        let before = readable_names(names.drop_last());
        match names.last() {
            Some(name) => before.push(name@),
            None => before,
        }
    }
}

/// The labels of a list of devices, in order.
pub open spec fn labels_of(devices: Seq<AudioDevice>) -> Seq<Seq<char>> {
    Seq::new(devices.len(), |i: int| devices[i].label@)
}

/// The identifiers of a list of devices, in order.
pub open spec fn ids_of(devices: Seq<AudioDevice>) -> Seq<Seq<char>> {
    Seq::new(devices.len(), |i: int| devices[i].id@)
}

/// Whether the device at one place of the host's list carries `label`.
pub open spec fn carries_label(entry: Option<String>, label: Seq<char>) -> bool {
    match entry {
        Some(name) => name@ == label,
        None => false,
    }
}

/// Turns the host's answer into the list shown to the caller.
///
/// `listing` is what the host said: the descriptor name of each
/// capture-capable device, `None` where the descriptor could not be read, or
/// the host's failure. Unreadable devices are left out without a word; a host
/// with no device gives an empty list, not an error.
pub fn enumerate_audio_devices(listing: Result<Vec<Option<String>>, String>) -> (r: Result<
    Vec<AudioDevice>,
    AudioError,
>)
    ensures
        match listing {
            Err(e) => r == Err::<Vec<AudioDevice>, AudioError>(AudioError::HostUnavailable(e)),
            Ok(names) => r.is_ok() && labels_of(r.unwrap()@) == readable_names(names@) && ids_of(
                r.unwrap()@,
            ) == readable_names(names@),
        },
{
    match listing {
        Err(e) => Err(AudioError::HostUnavailable(e)),
        Ok(names) => {
            let mut devices: Vec<AudioDevice> = Vec::new();
            let mut i: usize = 0;
            while i < names.len()
                invariant
                    i <= names@.len(),
                    labels_of(devices@) == readable_names(names@.take(i as int)),
                    ids_of(devices@) == readable_names(names@.take(i as int)),
                decreases names@.len() - i,
            {
                proof {
                    assert(names@.take(i + 1).drop_last() == names@.take(i as int));
                    assert(names@.take(i + 1).last() == names@[i as int]);
                }
                let ghost before = devices@;
                match &names[i] {
                    Some(name) => {
                        devices.push(AudioDevice { id: name.clone(), label: name.clone() });
                        assert(labels_of(devices@) == labels_of(before).push(name@));
                        assert(ids_of(devices@) == ids_of(before).push(name@));
                    },
                    None => {},
                }
                i += 1;
            }
            assert(names@.take(i as int) == names@);
            Ok(devices)
        },
    }
}

/// The first place of the host's list whose device carries `label`, if there
/// is one.
pub open spec fn first_carrying(names: Seq<Option<String>>, label: Seq<char>) -> Option<int>
    decreases names.len(),
{
    if names.len() == 0 {
        None
    } else {
        match first_carrying(names.drop_last(), label) {
            Some(i) => Some(i),
            None => if carries_label(names.last(), label) {
                Some(names.len() - 1)
            } else {
                None
            },
        }
    }
}

/// `first_carrying` finds a place that carries the label and has none before
/// it that does; it finds nothing only where no place carries the label.
pub proof fn lemma_first_carrying_is_first(names: Seq<Option<String>>, label: Seq<char>)
    ensures
        match first_carrying(names, label) {
            Some(i) => 0 <= i < names.len() && carries_label(names[i], label) && forall|j: int|
                0 <= j < i ==> !carries_label(#[trigger] names[j], label),
            None => forall|j: int|
                0 <= j < names.len() ==> !carries_label(#[trigger] names[j], label),
        },
    decreases names.len(),
{
    if names.len() > 0 {
        let before = names.drop_last();
        lemma_first_carrying_is_first(before, label);
        assert forall|j: int| 0 <= j < before.len() implies before[j] == names[j] by {}
        match first_carrying(before, label) {
            Some(i) => {
                assert(before[i] == names[i]);
            },
            None => {
                assert forall|j: int| 0 <= j < names.len() - 1 implies !carries_label(
                    #[trigger] names[j],
                    label,
                ) by {
                    assert(before[j] == names[j]);
                }
            },
        }
    }
}

/// What is found in the first `k` places is found in the whole list.
proof fn lemma_first_carrying_extends(names: Seq<Option<String>>, label: Seq<char>, k: int)
    requires
        0 <= k <= names.len(),
        first_carrying(names.take(k), label).is_some(),
    ensures
        first_carrying(names, label) == first_carrying(names.take(k), label),
    decreases names.len() - k,
{
    if k == names.len() {
        assert(names.take(k) == names);
    } else {
        assert(names.take(k + 1).drop_last() == names.take(k));
        lemma_first_carrying_extends(names, label, k + 1);
    }
}

/// Finds the first device of the host's list that carries `label` exactly.
pub fn find_device(names: &Vec<Option<String>>, label: &String) -> (r: Option<usize>)
    ensures
        match r {
            Some(i) => first_carrying(names@, label@) == Some(i as int),
            None => first_carrying(names@, label@).is_none(),
        },
{
    let mut i: usize = 0;
    while i < names.len()
        invariant
            i <= names@.len(),
            first_carrying(names@.take(i as int), label@).is_none(),
        decreases names@.len() - i,
    {
        let hit: bool = match &names[i] {
            Some(name) => *name == *label,
            None => false,
        };
        proof {
            assert(names@.take(i + 1).drop_last() == names@.take(i as int));
            assert(names@.take(i + 1).last() == names@[i as int]);
        }
        if hit {
            proof {
                lemma_first_carrying_extends(names@, label@, i + 1);
            }
            return Some(i);
        }
        i += 1;
    }
    assert(names@.take(i as int) == names@);
    None
}

} // verus!
