//! What `gdbus call` prints about NetworkManager's Wi-Fi P2P objects:
//! object paths, string and byte properties, and the nearby peer that a
//! `WifiP2PPeer` object describes.
use vstd::prelude::*;

use crate::endpoint::{EndpointInfo, EndpointTransport, EndpointView};
use crate::numbers::{decimal_text, parse_u8, parse_u8_text, u8_text};
use crate::text::{
    chars_of, find, find_chars, find_from, lemma_find_is_first_occurrence, occurs_at, opt_text,
    slice, split_chars, split_on, string_of, texts, trim, trimmed,
};

verus! {

/// Where every NetworkManager object path starts.
pub open spec fn object_path_prefix() -> Seq<char> {
    "/org/freedesktop/"@
}

/// A character that ends an object path in `gdbus` output.
pub open spec fn ends_path(c: char) -> bool {
    c == '\'' || c == ']' || c == ',' || c == ' ' || c == ')' || c == '>'
}

/// The first position at or after `i` that holds a character ending a
/// path, or the length of `s` where none does.
pub open spec fn path_end_from(s: Seq<char>, i: int) -> int
    decreases s.len() - i,
{
    if i < 0 || i >= s.len() {
        s.len() as int
    } else if ends_path(s[i]) {
        i
    } else {
        path_end_from(s, i + 1)
    }
}

/// The end of an object path lies between its start and the end of the
/// text.
pub proof fn lemma_path_end_bounds(s: Seq<char>, i: int)
    requires
        0 <= i <= s.len(),
    ensures
        i <= path_end_from(s, i) <= s.len(),
    decreases s.len() - i,
{
    if i < s.len() && !ends_path(s[i]) {
        lemma_path_end_bounds(s, i + 1);
    }
}

/// Where a search from `i` finds the needle, the needle occurs there, at or
/// after `i`.
pub proof fn lemma_find_from_found(h: Seq<char>, n: Seq<char>, i: int)
    requires
        find_from(h, n, i) is Some,
    ensures
        occurs_at(h, n, find_from(h, n, i)->0),
        i <= find_from(h, n, i)->0,
    decreases h.len() + 1 - i,
{
    if !(i < 0 || i + n.len() > h.len()) && !occurs_at(h, n, i) {
        lemma_find_from_found(h, n, i + 1);
    }
}

/// The object paths that `output` names, in order (each is the text from
/// an occurrence of the path prefix up to the next path-ending character,
/// trimmed).
pub open spec fn object_paths_in(s: Seq<char>) -> Seq<Seq<char>>
    decreases s.len(),
{
    match find(s, object_path_prefix()) {
        None => Seq::<Seq<char>>::empty(),
        Some(i) => {
            let candidate = s.skip(i);
            let end = path_end_from(candidate, 0);
            let path = trim(candidate.take(end));
            let rest = if 0 <= i <= s.len() && 0 < end <= candidate.len() {
                object_paths_in(candidate.skip(end))
            } else {
                Seq::<Seq<char>>::empty()
            };
            if path.len() > 0 {
                seq![path] + rest
            } else {
                rest
            }
        },
    }
}

fn path_end(s: &Vec<char>, from: usize) -> (e: usize)
    requires
        from <= s.len(),
    ensures
        e == path_end_from(s@, from as int),
{
    let mut i = from;
    while i < s.len()
        invariant
            from <= i <= s.len(),
            path_end_from(s@, from as int) == path_end_from(s@, i as int),
        decreases s.len() - i,
    {
        let c = s[i];
        if c == '\'' || c == ']' || c == ',' || c == ' ' || c == ')' || c == '>' {
            return i;
        }
        i = i + 1;
    }
    i
}

/// The object paths named in the `gdbus` output `output`.
pub fn extract_object_paths(output: &str) -> (r: Vec<String>)
    ensures
        r@.len() == object_paths_in(output@).len(),
        forall|k: int| 0 <= k < r@.len() ==> #[trigger] r@[k]@ == object_paths_in(output@)[k],
{
    let prefix = chars_of("/org/freedesktop/");
    proof {
        reveal_strlit("/org/freedesktop/");
        assert("/org/freedesktop/"@.len() == 17);
    }
    let mut rest = chars_of(output);
    let mut paths: Vec<String> = Vec::new();
    let ghost mut found: Seq<Seq<char>> = Seq::empty();
    assert(found + object_paths_in(rest@) =~= object_paths_in(output@));
    loop
        invariant
            prefix@ == object_path_prefix(),
            prefix@.len() == 17,
            found + object_paths_in(rest@) == object_paths_in(output@),
            paths@.len() == found.len(),
            forall|k: int| 0 <= k < paths@.len() ==> #[trigger] paths@[k]@ == found[k],
        decreases rest@.len(),
    {
        match find_chars(&rest, &prefix, 0) {
            None => {
                assert(found =~= object_paths_in(output@));
                return paths;
            },
            Some(idx) => {
                proof {
                    lemma_find_from_found(rest@, prefix@, 0);
                }
                let candidate = slice(&rest, idx, rest.len());
                assert(candidate@ =~= rest@.skip(idx as int));
                assert(candidate@[0] == prefix@[0]);
                proof {
                    reveal_strlit("/org/freedesktop/");
                    lemma_path_end_bounds(candidate@, 1);
                }
                let end = path_end(&candidate, 0);
                let piece = slice(&candidate, 0, end);
                let path = trimmed(&piece);
                let ghost before = found;
                if path.len() > 0 {
                    paths.push(string_of(&path));
                    proof {
                        found = found.push(path@);
                    }
                    assert(seq![path@] + object_paths_in(candidate@.skip(end as int))
                        =~= object_paths_in(rest@));
                    assert(before + object_paths_in(rest@) =~= found + object_paths_in(
                        candidate@.skip(end as int),
                    ));
                }
                rest = slice(&candidate, end, candidate.len());
                assert(rest@ =~= candidate@.skip(end as int));
            },
        }
    }
}

/// The text between `'` + `prop` + `opener` and the next `closer` in
/// `output`, where both occur.
pub open spec fn delimited_property(
    output: Seq<char>,
    prop: Seq<char>,
    opener: Seq<char>,
    closer: Seq<char>,
) -> Option<Seq<char>> {
    let needle = seq!['\''] + prop + opener;
    match find(output, needle) {
        None => None,
        Some(i) => {
            let rest = output.skip(i + needle.len());
            match find(rest, closer) {
                None => None,
                Some(e) => Some(rest.take(e)),
            }
        },
    }
}

/// The string property `prop` in `gdbus` output: `'prop': <'value'>`.
pub open spec fn string_property(output: Seq<char>, prop: Seq<char>) -> Option<Seq<char>> {
    delimited_property(output, prop, "': <'"@, "'>"@)
}

/// A string property reads exactly the text between `'prop': <'` and the
/// next `'>`, at the first place where `'prop': <'` occurs.
pub proof fn lemma_string_property_reads(output: Seq<char>, prop: Seq<char>, at: int, v: Seq<char>)
    requires
        occurs_at(output, seq!['\''] + prop + "': <'"@, at),
        forall|j: int| 0 <= j < at ==> !#[trigger] occurs_at(output, seq!['\''] + prop + "': <'"@, j),
        occurs_at(output.skip(at + (seq!['\''] + prop + "': <'"@).len()), "'>"@, v.len() as int),
        output.skip(at + (seq!['\''] + prop + "': <'"@).len()).take(v.len() as int) == v,
        forall|j: int|
            0 <= j < v.len() ==> !#[trigger] occurs_at(
                output.skip(at + (seq!['\''] + prop + "': <'"@).len()),
                "'>"@,
                j,
            ),
    ensures
        string_property(output, prop) == Some(v),
{
    let needle = seq!['\''] + prop + "': <'"@;
    lemma_find_is_first_occurrence(output, needle);
    let rest = output.skip(at + needle.len());
    lemma_find_is_first_occurrence(rest, "'>"@);
    match find(output, needle) {
        Some(i) => {
            if i < at {
            } else if i > at {
            }
            assert(i == at);
            match find(rest, "'>"@) {
                Some(e) => {
                    if e < v.len() {
                    } else if e > v.len() {
                    }
                    assert(e == v.len());
                },
                None => {
                    assert(occurs_at(rest, "'>"@, v.len() as int));
                },
            }
        },
        None => {
            assert(occurs_at(output, needle, at));
        },
    }
}

/// The byte property `prop` in `gdbus` output: `'prop': <byte value>`, with
/// a decimal value.
pub open spec fn u8_property(output: Seq<char>, prop: Seq<char>) -> Option<u8> {
    match delimited_property(output, prop, "': <byte "@, ">"@) {
        None => None,
        Some(v) => parse_u8_text(trim(v)),
    }
}

fn delimited(output: &Vec<char>, prop: &Vec<char>, opener: &str, closer: &str) -> (r: Option<
    Vec<char>,
>)
    ensures
        match r {
            Some(v) => delimited_property(output@, prop@, opener@, closer@) == Some(v@),
            None => delimited_property(output@, prop@, opener@, closer@) is None,
        },
{
    let mut needle: Vec<char> = Vec::new();
    needle.push('\'');
    let mut k: usize = 0;
    while k < prop.len()
        invariant
            k <= prop.len(),
            needle@ == seq!['\''] + prop@.take(k as int),
        decreases prop.len() - k,
    {
        needle.push(prop[k]);
        assert(prop@.take(k + 1) =~= prop@.take(k as int).push(prop@[k as int]));
        k = k + 1;
    }
    assert(prop@.take(prop.len() as int) =~= prop@);
    let op = chars_of(opener);
    let mut j: usize = 0;
    let ghost base = needle@;
    while j < op.len()
        invariant
            j <= op.len(),
            needle@ == base + op@.take(j as int),
        decreases op.len() - j,
    {
        needle.push(op[j]);
        assert(op@.take(j + 1) =~= op@.take(j as int).push(op@[j as int]));
        j = j + 1;
    }
    assert(op@.take(op.len() as int) =~= op@);
    assert(needle@ =~= seq!['\''] + prop@ + opener@);
    match find_chars(output, &needle, 0) {
        None => None,
        Some(i) => {
            proof {
                lemma_find_from_found(output@, needle@, 0);
            }
            assert(occurs_at(output@, needle@, i as int));
            assert(i + needle@.len() <= output@.len());
            assert(i + needle.len() <= output.len());
            let start = i + needle.len();
            let rest = slice(output, start, output.len());
            let cl = chars_of(closer);
            match find_chars(&rest, &cl, 0) {
                None => None,
                Some(e) => {
                    proof {
                        lemma_find_from_found(rest@, cl@, 0);
                    }
                    assert(rest@ =~= output@.skip(start as int));
                    let v = slice(&rest, 0, e);
                    assert(v@ =~= rest@.take(e as int));
                    Some(v)
                },
            }
        },
    }
}

fn string_property_of(output: &Vec<char>, prop: &str) -> (r: Option<String>)
    ensures
        opt_text(r) == string_property(output@, prop@),
{
    let p = chars_of(prop);
    match delimited(output, &p, "': <'", "'>") {
        Some(v) => Some(string_of(&v)),
        None => None,
    }
}

fn u8_property_of(output: &Vec<char>, prop: &str) -> (r: Option<u8>)
    ensures
        r == u8_property(output@, prop@),
{
    let p = chars_of(prop);
    match delimited(output, &p, "': <byte ", ">") {
        Some(v) => parse_u8(&trimmed(&v)),
        None => None,
    }
}

/// The string property `property` in the `gdbus` output `output`.
pub fn extract_gdbus_string_property(output: &str, property: &str) -> (r: Option<String>)
    ensures
        opt_text(r) == string_property(output@, property@),
{
    string_property_of(&chars_of(output), property)
}

/// The byte property `property` in the `gdbus` output `output`.
pub fn extract_gdbus_u8_property(output: &str, property: &str) -> (r: Option<u8>)
    ensures
        r == u8_property(output@, property@),
{
    u8_property_of(&chars_of(output), property)
}

// ---------------------------------------------------------------------------
// A Wi-Fi Direct peer
// ---------------------------------------------------------------------------

/// `o` where it holds something other than white space.
pub open spec fn non_blank(o: Option<Seq<char>>) -> Option<Seq<char>> {
    match o {
        Some(v) => if trim(v).len() > 0 {
            Some(v)
        } else {
            None
        },
        None => None,
    }
}

/// The first of `a` and `b` that is there.
pub open spec fn first_of(a: Option<Seq<char>>, b: Option<Seq<char>>) -> Option<Seq<char>> {
    match a {
        Some(v) => Some(v),
        None => b,
    }
}

/// The name to show for a peer: its name, model or manufacturer, the first
/// that is not blank, else its hardware address.
pub open spec fn peer_display_name(props: Seq<char>) -> Option<Seq<char>> {
    first_of(
        non_blank(string_property(props, "Name"@)),
        first_of(
            non_blank(string_property(props, "Model"@)),
            first_of(
                non_blank(string_property(props, "Manufacturer"@)),
                string_property(props, "HwAddress"@),
            ),
        ),
    )
}

/// The label shown for a peer: its display name (or a generic one), and
/// its signal strength in percent where it is reported.
pub open spec fn peer_label(props: Seq<char>) -> Seq<char> {
    let base = match peer_display_name(props) {
        Some(n) => n,
        None => "Wi-Fi Direct peer"@,
    };
    match u8_property(props, "Strength"@) {
        Some(s) => base + " ("@ + decimal_text(s as nat) + "%)"@,
        None => base,
    }
}

/// The last `/`-separated segment of an object path.
pub open spec fn last_segment(path: Seq<char>) -> Seq<char> {
    split_on(path, '/').last()
}

/// The peer that the `WifiP2PPeer` properties `props` of the object
/// `peer_path` describe: identified by its hardware address, or else by
/// the last segment of its path.
pub open spec fn peer_endpoint_view(props: Seq<char>, peer_path: Seq<char>) -> EndpointView {
    let hw = string_property(props, "HwAddress"@);
    let suffix = match hw {
        Some(h) => h,
        None => last_segment(peer_path),
    };
    EndpointView {
        fullname: peer_path,
        id: "wifi-direct:"@ + suffix,
        name: Some(peer_label(props)),
        ip: None,
        port: None,
        rtype: None,
        present: Some(true),
        transport: Some(EndpointTransport::WifiDirectPeer),
        wifi_direct_peer_path: Some(peer_path),
        wifi_direct_peer_mac: hw,
    }
}

/// A peer's label begins with its `Name` whenever that name is not blank,
/// whatever its model or manufacturer; only a peer without a name, or
/// with a blank one, is labelled by its model (when that is not blank);
/// and the peer's id is `wifi-direct:` and its hardware address where it
/// has one.
pub proof fn lemma_peer_is_labelled_by_its_name(props: Seq<char>, peer_path: Seq<char>)
    ensures
        ({
            let p = peer_endpoint_view(props, peer_path);
            let label = p.name->0;
            let name = string_property(props, "Name"@);
            let model = string_property(props, "Model"@);
            let hw = string_property(props, "HwAddress"@);
            &&& p.name is Some
            &&& (name is Some && trim(name->0).len() > 0) ==> (name->0.len() <= label.len()
                && label.take(name->0.len() as int) == name->0)
            &&& (!(name is Some && trim(name->0).len() > 0) && model is Some && trim(model->0).len()
                > 0) ==> (model->0.len() <= label.len() && label.take(model->0.len() as int)
                == model->0)
            &&& hw is Some ==> p.id == "wifi-direct:"@ + hw->0 && p.wifi_direct_peer_mac == hw
        }),
{
    let base = match peer_display_name(props) {
        Some(n) => n,
        None => "Wi-Fi Direct peer"@,
    };
    let label = peer_label(props);
    assert(base.len() <= label.len() && label.take(base.len() as int) =~= base) by {
        match u8_property(props, "Strength"@) {
            Some(st) => {
                assert(label == base + (" ("@ + decimal_text(st as nat) + "%)"@));
            },
            None => {},
        }
    }
}

fn append_text(v: &mut Vec<char>, t: &Vec<char>)
    ensures
        final(v)@ == old(v)@ + t@,
{
    let ghost start = v@;
    let mut k: usize = 0;
    while k < t.len()
        invariant
            k <= t.len(),
            v@ == start + t@.take(k as int),
        decreases t.len() - k,
    {
        v.push(t[k]);
        assert(t@.take(k + 1) =~= t@.take(k as int).push(t@[k as int]));
        k = k + 1;
    }
    assert(t@.take(t.len() as int) =~= t@);
}

fn non_blank_of(o: Option<String>) -> (r: Option<String>)
    ensures
        opt_text(r) == non_blank(opt_text(o)),
{
    match o {
        Some(v) => {
            let c = chars_of(v.as_str());
            if trimmed(&c).len() > 0 {
                Some(v)
            } else {
                None
            }
        },
        None => None,
    }
}

/// The peer that the `WifiP2PPeer` properties `properties` (empty where
/// they could not be read) of the object `peer_path` describe.
pub fn wifi_direct_peer_from_properties(properties: &str, peer_path: &str) -> (r: EndpointInfo)
    ensures
        r@ == peer_endpoint_view(properties@, peer_path@),
{
    let props = chars_of(properties);
    let hw_address = string_property_of(&props, "HwAddress");
    let name = string_property_of(&props, "Name");
    let manufacturer = string_property_of(&props, "Manufacturer");
    let model = string_property_of(&props, "Model");
    let strength = u8_property_of(&props, "Strength");

    let display_name: Option<String> = match non_blank_of(name) {
        Some(n) => Some(n),
        None => match non_blank_of(model) {
            Some(m) => Some(m),
            None => match non_blank_of(manufacturer) {
                Some(f) => Some(f),
                None => crate::text::copy_opt_string(&hw_address),
            },
        },
    };
    assert(opt_text(display_name) == peer_display_name(props@));

    let path_chars = chars_of(peer_path);
    let suffix: Vec<char> = match &hw_address {
        Some(h) => chars_of(h.as_str()),
        None => {
            let segments = split_chars(&path_chars, '/');
            proof {
                crate::text::lemma_split_on_nonempty(path_chars@, '/');
            }
            let last = &segments[segments.len() - 1];
            assert(texts(segments@).last() == last@);
            slice(last, 0, last.len())
        },
    };
    proof {
        if hw_address is None {
            assert(suffix@ =~= last_segment(peer_path@));
        }
    }

    let mut label: Vec<char> = match &display_name {
        Some(n) => chars_of(n.as_str()),
        None => chars_of("Wi-Fi Direct peer"),
    };
    match strength {
        Some(s) => {
            append_text(&mut label, &chars_of(" ("));
            append_text(&mut label, &u8_text(s));
            append_text(&mut label, &chars_of("%)"));
        },
        None => {},
    }

    let mut id = chars_of("wifi-direct:");
    append_text(&mut id, &suffix);

    EndpointInfo {
        fullname: string_of(&path_chars),
        id: string_of(&id),
        name: Some(string_of(&label)),
        ip: None,
        port: None,
        rtype: None,
        present: Some(true),
        transport: Some(EndpointTransport::WifiDirectPeer),
        wifi_direct_peer_path: Some(string_of(&path_chars)),
        wifi_direct_peer_mac: hw_address,
    }
}

} // verus!
