//! Decisions that the command handlers make: filtering reference data, following
//! pagination cursors and sequencing a deletion with its check.

use crate::api::query::opt_view;
use crate::codec::{base64_decode, base64_encode, base64_decodes_its_encoding, base64_decoded, base64_text, string_from_utf8};
use crate::models::startup_script::decoded_text;
use crate::error::{VultrError, VultrResult};
use crate::models::common::{Meta, Os};
use crate::output::text_or_empty;
use crate::text::{
    ascii_lower_chars, ascii_lower_seq, chars_of, contains_chars, contains_seq, eq_ignore_ascii_case,
    owned, str_eq, trim, trim_chars, trim_seq,
};
use vstd::string::StrSliceExecFns;
use vstd::prelude::*;

verus! {

/// The lower-cased, trimmed filter text, when it is not empty after trimming.
pub open spec fn needle_of(filter: Option<Seq<char>>) -> Option<Seq<char>> {
    match filter {
        Some(f) => {
            let n = ascii_lower_seq(trim_seq(f));
            if n.len() > 0 {
                Some(n)
            } else {
                None
            }
        },
        None => None,
    }
}

/// An operating system passes the filters of `vultr os`: the id when one is given, the
/// family and architecture compared case-insensitively, and the name containing the text,
/// each text filter trimmed and ignored when empty.
pub open spec fn os_matches(
    os: Os,
    id: Option<i32>,
    family: Option<Seq<char>>,
    arch: Option<Seq<char>>,
    name: Option<Seq<char>>,
) -> bool {
    &&& (id matches Some(i) ==> os.id == i)
    &&& (needle_of(family) matches Some(n) ==> ascii_lower_seq(text_or_empty(os.family)) == n)
    &&& (needle_of(arch) matches Some(n) ==> ascii_lower_seq(text_or_empty(os.arch)) == n)
    &&& (needle_of(name) matches Some(n) ==> contains_seq(ascii_lower_seq(text_or_empty(os.name)), n))
}

/// The filter on operating systems.
pub open spec fn os_filter(
    id: Option<i32>,
    family: Option<Seq<char>>,
    arch: Option<Seq<char>>,
    name: Option<Seq<char>>,
) -> spec_fn(Os) -> bool {
    |o: Os| os_matches(o, id, family, arch, name)
}

/// The name filter of `vultr os` ignores ASCII case and surrounding whitespace: an
/// operating system passes it exactly when its name, lower-cased, contains the trimmed,
/// lower-cased filter text; an empty filter lets everything pass. The family and
/// architecture filters compare the same way but whole, and the id filter exactly.
pub proof fn os_filters_ignore_case(os: Os, id: Option<i32>, family: Option<Seq<char>>, arch: Option<Seq<char>>, name: Seq<char>)
    ensures
        os_matches(os, None, None, None, Some(name)) <==> (ascii_lower_seq(trim_seq(name)).len() == 0 || contains_seq(
            ascii_lower_seq(text_or_empty(os.name)),
            ascii_lower_seq(trim_seq(name)),
        )),
        os_matches(os, id, None, None, None) <==> (id matches Some(i) ==> os.id == i),
        family matches Some(f) ==> (os_matches(os, None, Some(f), None, None) <==> (ascii_lower_seq(trim_seq(f)).len() == 0
            || ascii_lower_seq(text_or_empty(os.family)) == ascii_lower_seq(trim_seq(f)))),
        arch matches Some(a) ==> (os_matches(os, None, None, Some(a), None) <==> (ascii_lower_seq(trim_seq(a)).len() == 0
            || ascii_lower_seq(text_or_empty(os.arch)) == ascii_lower_seq(trim_seq(a)))),
        os_matches(os, id, family, arch, Some(name)) <==> (os_matches(os, id, family, arch, None) && os_matches(os, None, None, None, Some(name))),
{
}

fn needle(filter: Option<&str>) -> (r: Option<Vec<char>>)
    ensures
        match needle_of(opt_view(filter)) {
            Some(n) => r matches Some(v) && v@ == n,
            None => r is None,
        },
{
    match filter {
        Some(f) => {
            let cs = chars_of(f);
            let t = trim_chars(&cs);
            let n = ascii_lower_chars(&t);
            if n.len() > 0 {
                Some(n)
            } else {
                None
            }
        },
        None => None,
    }
}

fn field_chars(o: &Option<String>) -> (r: Vec<char>)
    ensures
        r@ == ascii_lower_seq(text_or_empty(*o)),
{
    match o {
        Some(s) => {
            let cs = chars_of(s.as_str());
            ascii_lower_chars(&cs)
        },
        None => {
            let v: Vec<char> = Vec::new();
            assert(ascii_lower_seq(Seq::empty()) =~= v@);
            v
        },
    }
}

fn chars_eq(a: &Vec<char>, b: &Vec<char>) -> (r: bool)
    ensures
        r == (a@ == b@),
{
    if a.len() != b.len() {
        return false;
    }
    let mut i: usize = 0;
    while i < a.len()
        invariant
            a.len() == b.len(),
            i <= a.len(),
            forall|j: int| 0 <= j < i ==> a@[j] == b@[j],
        decreases a.len() - i,
    {
        if a[i] != b[i] {
            return false;
        }
        i = i + 1;
    }
    assert(a@ =~= b@);
    true
}

/// Keep the operating systems that pass the given filters, in their order.
pub fn filter_os(
    os_list: Vec<Os>,
    id: Option<i32>,
    family: Option<&str>,
    arch: Option<&str>,
    name: Option<&str>,
) -> (r: Vec<Os>)
    ensures
        r@ == os_list@.filter(os_filter(id, opt_view(family), opt_view(arch), opt_view(name))),
{
    let ghost fam = opt_view(family);
    let ghost ar = opt_view(arch);
    let ghost nm = opt_view(name);
    let ghost pred = os_filter(id, fam, ar, nm);
    let family_needle = needle(family);
    let arch_needle = needle(arch);
    let name_needle = needle(name);
    let mut kept: Vec<Os> = Vec::new();
    let ghost original = os_list@;
    proof {
        reveal(Seq::filter);
    }
    assert(original.take(0).filter(pred) =~= kept@);
    for os in it: os_list
        invariant
            it.seq() == original,
            kept@ == original.take(it.index() as int).filter(pred),
            match needle_of(fam) {
                Some(n) => family_needle matches Some(v) && v@ == n,
                None => family_needle is None,
            },
            match needle_of(ar) {
                Some(n) => arch_needle matches Some(v) && v@ == n,
                None => arch_needle is None,
            },
            match needle_of(nm) {
                Some(n) => name_needle matches Some(v) && v@ == n,
                None => name_needle is None,
            },
            pred == os_filter(id, fam, ar, nm),
    {
        let ghost k = it.index();
        assert(os == original[k as int]);
        let id_ok = match id {
            Some(i) => os.id == i,
            None => true,
        };
        let family_ok = match &family_needle {
            Some(n) => chars_eq(&field_chars(&os.family), n),
            None => true,
        };
        let arch_ok = match &arch_needle {
            Some(n) => chars_eq(&field_chars(&os.arch), n),
            None => true,
        };
        let name_ok = match &name_needle {
            Some(n) => contains_chars(&field_chars(&os.name), n),
            None => true,
        };
        let keep = id_ok && family_ok && arch_ok && name_ok;
        assert(keep == pred(os));
        proof {
            reveal(Seq::filter);
            assert(original.take(k + 1).drop_last() =~= original.take(k as int));
        }
        if keep {
            kept.push(os);
        }
    }
    assert(original.take(original.len() as int) =~= original);
    kept
}
/// The region filter of `vultr plans`: the trimmed text, absent when nothing is left.
pub open spec fn region_filter_of(region: Option<Seq<char>>) -> Option<Seq<char>> {
    match region {
        Some(r) => if trim_seq(r).len() > 0 {
            Some(trim_seq(r))
        } else {
            None
        },
        None => None,
    }
}

/// Normalize the region filter: trim it, and drop it when it is empty.
pub fn region_filter(region: Option<&str>) -> (r: Option<&str>)
    ensures
        opt_view(r) == region_filter_of(opt_view(region)),
{
    match region {
        Some(value) => {
            let trimmed = trim(value);
            if trimmed.is_empty() {
                None
            } else {
                Some(trimmed)
            }
        },
        None => None,
    }
}

/// One of the locations names the region, ignoring ASCII case.
pub open spec fn lists_region(locations: Seq<String>, region: Seq<char>) -> bool {
    exists|i: int| 0 <= i < locations.len() && ascii_lower_seq(#[trigger] locations[i]@) == ascii_lower_seq(region)
}

/// Whether a plan offered at these locations is offered in the region.
pub fn location_matches(locations: &Vec<String>, region: &str) -> (r: bool)
    ensures
        r == lists_region(locations@, region@),
{
    let mut i: usize = 0;
    while i < locations.len()
        invariant
            i <= locations.len(),
            forall|j: int| 0 <= j < i ==> ascii_lower_seq(#[trigger] locations@[j]@) != ascii_lower_seq(region@),
        decreases locations.len() - i,
    {
        if eq_ignore_ascii_case(locations[i].as_str(), region) {
            return true;
        }
        i = i + 1;
    }
    false
}

/// The cursor of the next page: the `next` link, when the metadata has links and the link
/// is not empty. The API marks the last page with an empty `next`.
pub open spec fn next_cursor_of(meta: Meta) -> Option<String> {
    match meta.links {
        Some(l) => match l.next {
            Some(c) => if c@.len() > 0 {
                Some(c)
            } else {
                None
            },
            None => None,
        },
        None => None,
    }
}

/// Append a fetched page to the items collected so far and give the cursor of the next
/// page; collecting stops when there is none.
pub fn collect_page<T>(all: &mut Vec<T>, page: Vec<T>, meta: Meta) -> (next: Option<String>)
    ensures
        final(all)@ == old(all)@ + page@,
        next == next_cursor_of(meta),
{
    let mut page = page;
    all.append(&mut page);
    match meta.links {
        Some(l) => match l.next {
            Some(c) => if c.as_str().is_empty() {
                None
            } else {
                Some(c)
            },
            None => None,
        },
        None => None,
    }
}

/// The next step of a deletion.
#[derive(Debug)]
pub enum DeletionStep {
    /// Check, by polling, that the resource is gone.
    Verify,
    /// The deletion is over with this result.
    Finish(VultrResult<()>),
}

/// The step after the delete request: a failed request ends the deletion with its error;
/// a successful one is checked when waiting was asked for, and ends it otherwise.
pub fn after_delete(deleted: VultrResult<()>, wait: bool) -> (r: DeletionStep)
    ensures
        match deleted {
            Err(e) => r == DeletionStep::Finish(Err(e)),
            Ok(_) => if wait {
                r is Verify
            } else {
                r == DeletionStep::Finish(Ok(()))
            },
        },
{
    match deleted {
        Err(e) => DeletionStep::Finish(Err(e)),
        Ok(_) => if wait {
            DeletionStep::Verify
        } else {
            DeletionStep::Finish(Ok(()))
        },
    }
}

/// The profile in effect: the default profile of the configuration when the command line
/// names the profile `default` and the configuration names another one, else the command
/// line's profile.
pub open spec fn effective_profile_of(cli_profile: Seq<char>, configured_default: Seq<char>) -> Seq<char> {
    if cli_profile == "default"@ && configured_default != "default"@ {
        configured_default
    } else {
        cli_profile
    }
}

/// Choose the profile in effect.
pub fn effective_profile(cli_profile: &str, configured_default: &str) -> (r: String)
    ensures
        r@ == effective_profile_of(cli_profile@, configured_default@),
{
    if str_eq(cli_profile, "default") && !str_eq(configured_default, "default") {
        owned(configured_default)
    } else {
        owned(cli_profile)
    }
}

/// The path named by an argument of the form `@path`, which asks for a file's contents.
pub open spec fn file_reference_of(input: Seq<char>) -> Option<Seq<char>> {
    if input.len() > 0 && input[0] == '@' {
        Some(input.drop_first())
    } else {
        None
    }
}

/// The file an argument refers to, when it starts with `@`; otherwise the argument is
/// the value itself.
pub fn file_reference(input: &str) -> (r: Option<&str>)
    ensures
        opt_view(r) == file_reference_of(input@),
{
    let cs = chars_of(input);
    if cs.len() > 0 && cs[0] == '@' {
        let rest = input.substring_char(1, cs.len());
        assert(rest@ =~= input@.drop_first());
        Some(rest)
    } else {
        None
    }
}

/// The user data of a server to create, as the API takes it: the raw bytes in standard
/// base64.
pub fn encode_user_data(raw: &[u8]) -> (r: String)
    ensures
        r@ == base64_text(raw@),
        base64_decoded(r@) == Some(raw@),
{
    let r = base64_encode(raw);
    proof {
        base64_decodes_its_encoding(raw@);
    }
    r
}

/// `text` begins with `prefix`.
pub open spec fn starts_with(text: Seq<char>, prefix: Seq<char>) -> bool {
    prefix.len() <= text.len() && text.subrange(0, prefix.len() as int) == prefix
}

fn prefixed(prefix: &str, detail: &str) -> (m: String)
    ensures
        m@ == prefix@ + detail@,
        starts_with(m@, prefix@),
{
    let mut m = owned(prefix);
    m.append(detail);
    assert(m@.subrange(0, prefix@.len() as int) =~= prefix@);
    m
}

/// The kubeconfig of a cluster as text: the API's base64 decoded, then read as UTF-8. A
/// value that is not base64, or whose bytes are not UTF-8, is invalid input; the message
/// says which, followed by the decoder's own description.
pub fn decode_kubeconfig(encoded: &str) -> (r: VultrResult<String>)
    ensures
        r is Ok <==> decoded_text(encoded@) is Some,
        r matches Ok(s) ==> Some(s@) == decoded_text(encoded@),
        r matches Err(e) ==> e matches VultrError::InvalidInput(m) && (if base64_decoded(encoded@) is None {
            starts_with(m@, "Failed to decode config: "@)
        } else {
            starts_with(m@, "Invalid UTF-8 in config: "@)
        }),
{
    match base64_decode(encoded) {
        Ok(bytes) => {
            proof {
                base64_decodes_its_encoding(bytes@);
            }
            match string_from_utf8(bytes) {
                Ok(text) => Ok(text),
                Err(detail) => Err(VultrError::InvalidInput(prefixed("Invalid UTF-8 in config: ", detail.as_str()))),
            }
        },
        Err(detail) => Err(VultrError::InvalidInput(prefixed("Failed to decode config: ", detail.as_str()))),
    }
}

/// The region filter ignores ASCII case: regions that differ only in case select the same
/// plans, and a plan listing the region itself is selected.
pub proof fn region_filter_ignores_case(locations: Seq<String>, r1: Seq<char>, r2: Seq<char>)
    ensures
        ascii_lower_seq(r1) == ascii_lower_seq(r2) ==> (lists_region(locations, r1) <==> lists_region(locations, r2)),
        (exists|i: int| 0 <= i < locations.len() && #[trigger] locations[i]@ == r1) ==> lists_region(locations, r1),
        locations.len() == 0 ==> !lists_region(locations, r1),
{
    if exists|i: int| 0 <= i < locations.len() && #[trigger] locations[i]@ == r1 {
        let i = choose|i: int| 0 <= i < locations.len() && #[trigger] locations[i]@ == r1;
        assert(ascii_lower_seq(locations[i]@) == ascii_lower_seq(r1));
    }
    if ascii_lower_seq(r1) == ascii_lower_seq(r2) && lists_region(locations, r1) {
        let i = choose|i: int| 0 <= i < locations.len() && ascii_lower_seq(#[trigger] locations[i]@) == ascii_lower_seq(r1);
        assert(ascii_lower_seq(locations[i]@) == ascii_lower_seq(r2));
    }
    if ascii_lower_seq(r1) == ascii_lower_seq(r2) && lists_region(locations, r2) {
        let i = choose|i: int| 0 <= i < locations.len() && ascii_lower_seq(#[trigger] locations[i]@) == ascii_lower_seq(r2);
        assert(ascii_lower_seq(locations[i]@) == ascii_lower_seq(r1));
    }
}

/// The profile in effect is the configuration's default profile when the command line asks
/// for the profile named `default`, and the command line's profile otherwise.
pub proof fn effective_profile_law(cli_profile: Seq<char>, configured_default: Seq<char>)
    ensures
        cli_profile == "default"@ ==> effective_profile_of(cli_profile, configured_default) == configured_default,
        cli_profile != "default"@ ==> effective_profile_of(cli_profile, configured_default) == cli_profile,
{
}

} // verus!
