//! Capability negotiation: which of the names a component requires does the
//! driver not offer?

use vstd::prelude::*;
use vstd::string::*;
use crate::logging::LogLevel;
use crate::text::{bullet_list, push_bullet_list};

verus! {

/// The verdict of one negotiation.
#[derive(Clone, Debug, PartialEq, Eq)]
pub struct CapabilityReport {
    /// Whether every required name is available.
    pub supported: bool,
    /// The required names that are not available, in the order in which they
    /// were required.
    pub missing: Vec<String>,
}

/// The layer through which the driver checks how it is used.
pub const VALIDATION_LAYER_NAME: &'static str = "VK_LAYER_KHRONOS_validation";

/// The layers a profile requires, of the instance and of the device alike: the
/// validation layer where the profile validates, none otherwise.
pub open spec fn required_layer_names(profile: LogLevel) -> Seq<Seq<char>> {
    if profile.validates() {
        seq![VALIDATION_LAYER_NAME@]
    } else {
        Seq::empty()
    }
}

/// The layers that `profile` requires.
pub fn required_layers(profile: LogLevel) -> (layers: Vec<String>)
    ensures
        layers.deep_view() == required_layer_names(profile),
{
    let mut layers: Vec<String> = Vec::new();
    if profile.uses_validation() {
        layers.push(String::from_str(VALIDATION_LAYER_NAME));
    }
    assert(layers.deep_view() =~= required_layer_names(profile));
    layers
}

/// A copy of `names`.
pub fn copy_names(names: &Vec<String>) -> (copy: Vec<String>)
    ensures
        copy.deep_view() == names.deep_view(),
{
    let mut copy: Vec<String> = Vec::new();
    let mut i: usize = 0;
    while i < names.len()
        invariant
            i <= names.len(),
            copy.deep_view() == names.deep_view().take(i as int),
        decreases names.len() - i,
    {
        let ghost before = copy.deep_view();
        copy.push(names[i].clone());
        assert(copy.deep_view() == before.push(names[i as int]@));
        assert(names.deep_view().take(i as int + 1) == before.push(names[i as int]@));
        i += 1;
    }
    assert(names.deep_view().take(names.len() as int) == names.deep_view());
    copy
}

/// Every element of `required` occurs in `available`.
pub open spec fn covers(available: Seq<Seq<char>>, required: Seq<Seq<char>>) -> bool {
    forall|i: int| 0 <= i < required.len() ==> available.contains(#[trigger] required[i])
}

/// The elements of `required` that do not occur in `available`, in the order of
/// `required`.
pub open spec fn missing_names(required: Seq<Seq<char>>, available: Seq<Seq<char>>) -> Seq<
    Seq<char>,
> {
    required.filter(|name: Seq<char>| !available.contains(name))
}

/// Whether `name` is one of `available`, compared character by character.
pub fn is_available(name: &String, available: &Vec<String>) -> (found: bool)
    ensures
        found == available.deep_view().contains(name@),
{
    let mut j: usize = 0;
    while j < available.len()
        invariant
            j <= available.len(),
            forall|k: int| 0 <= k < j ==> available.deep_view()[k] != name@,
        decreases available.len() - j,
    {
        if available[j] == *name {
            assert(available.deep_view()[j as int] == name@);
            return true;
        }
        j += 1;
    }
    false
}

/// Nothing is missing exactly when everything required is available.
pub proof fn lemma_nothing_missing_iff_covered(required: Seq<Seq<char>>, available: Seq<Seq<char>>)
    ensures
        missing_names(required, available).len() == 0 <==> covers(available, required),
    decreases required.len(),
{
    reveal(Seq::filter);
    if required.len() > 0 {
        let front = required.drop_last();
        lemma_nothing_missing_iff_covered(front, available);
        if covers(available, required) {
            assert forall|i: int| 0 <= i < front.len() implies available.contains(
                #[trigger] front[i],
            ) by {
                assert(front[i] == required[i]);
            }
            assert(available.contains(required[required.len() - 1]));
        }
        if missing_names(required, available).len() == 0 {
            assert forall|i: int| 0 <= i < required.len() implies available.contains(
                #[trigger] required[i],
            ) by {
                if i < front.len() {
                    assert(front[i] == required[i]);
                }
            }
        }
    }
}

/// Compares the required names against the available ones.
///
/// The request is supported exactly when every required name is available;
/// otherwise the report lists the names that are not, in the order in which
/// they were required. Names are equal when their characters are.
pub fn check(required: &Vec<String>, available: &Vec<String>) -> (report: CapabilityReport)
    ensures
        report.supported == covers(available.deep_view(), required.deep_view()),
        report.supported == (report.missing.len() == 0),
        report.missing.deep_view() == missing_names(
            required.deep_view(),
            available.deep_view(),
        ),
{
    let ghost wanted = required.deep_view();
    let ghost offered = available.deep_view();
    let ghost absent = |name: Seq<char>| !offered.contains(name);
    let mut missing: Vec<String> = Vec::new();
    let mut i: usize = 0;
    proof {
        reveal(Seq::filter);
    }
    while i < required.len()
        invariant
            i <= required.len(),
            wanted == required.deep_view(),
            offered == available.deep_view(),
            absent == |name: Seq<char>| !offered.contains(name),
            missing.deep_view() == wanted.take(i as int).filter(absent),
        decreases required.len() - i,
    {
        let found = is_available(&required[i], available);
        proof {
            reveal(Seq::filter);
            let next = wanted.take(i as int + 1);
            assert(next.drop_last() == wanted.take(i as int));
            assert(next.last() == required[i as int]@);
        }
        if !found {
            let ghost before = missing.deep_view();
            missing.push(required[i].clone());
            assert(missing.deep_view() == before.push(required[i as int]@));
        }
        i += 1;
    }
    proof {
        assert(wanted.take(required.len() as int) == wanted);
        lemma_nothing_missing_iff_covered(wanted, offered);
    }
    CapabilityReport { supported: missing.len() == 0, missing }
}

impl CapabilityReport {
    /// The text that reports an unsupported request: the header, a colon, and
    /// one bulleted line per missing name.
    pub open spec fn diagnostic_text(header: Seq<char>, missing: Seq<Seq<char>>) -> Seq<char> {
        header + ":\n"@ + bullet_list(missing)
    }

    /// The diagnostic to log for this report under `header`: none where
    /// nothing is missing.
    pub fn diagnostic(&self, header: &str) -> (text: Option<String>)
        ensures
            text is Some <==> self.missing.len() > 0,
            text matches Some(t) ==> t@ == Self::diagnostic_text(
                header@,
                self.missing.deep_view(),
            ),
    {
        if self.missing.len() == 0 {
            return None;
        }
        let mut out = String::from_str(header);
        out.append(":\n");
        push_bullet_list(&mut out, &self.missing);
        Some(out)
    }
}

} // verus!
