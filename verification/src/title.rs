//! Window-title resolution: decoding a raw name property and the
//! modern-name / legacy-name / sentinel fallback chain.

use vstd::prelude::*;

verus! {

/// The sentinel title used when a window exposes no usable name property.
pub open spec fn no_name_title() -> Seq<char> {
    "<No Name>"@
}

pub open spec fn opt_title_view(o: Option<String>) -> Option<Seq<char>> {
    match o {
        Some(s) => Some(s@),
        None => None,
    }
}

pub open spec fn opt_bytes_view(o: Option<Vec<u8>>) -> Option<Seq<u8>> {
    match o {
        Some(b) => Some(b@),
        None => None,
    }
}

/// What `String::from_utf8` yields on a given byte sequence: `None` when the
/// bytes are not valid UTF-8, otherwise the decoded character sequence.
pub uninterp spec fn utf8_decoded(bytes: Seq<u8>) -> Option<Seq<char>>;

/// Relies on `String::from_utf8`: whether and how a byte vector decodes is a
/// function of the bytes alone.
#[verifier::external_body]
fn decode_utf8(bytes: Vec<u8>) -> (r: Option<String>)
    ensures
        r is Some <==> utf8_decoded(bytes@) is Some,
        r matches Some(s) ==> utf8_decoded(bytes@) matches Some(t) && s@ == t,
{
    String::from_utf8(bytes).ok()
}

/// A raw property fetch turned into a usable title: absent, empty or
/// undecodable data all count as "no title", never as an error.
pub open spec fn title_from_bytes(raw: Option<Seq<u8>>) -> Option<Seq<char>> {
    match raw {
        Some(b) => {
            if b.len() == 0 {
                None
            } else {
                utf8_decoded(b)
            }
        },
        None => None,
    }
}

pub fn property_title(raw: Option<Vec<u8>>) -> (r: Option<String>)
    ensures
        opt_title_view(r) == title_from_bytes(opt_bytes_view(raw)),
{
    match raw {
        Some(b) => {
            if b.len() == 0 {
                None
            } else {
                decode_utf8(b)
            }
        },
        None => None,
    }
}

pub open spec fn legacy_or_sentinel(legacy: Option<Seq<char>>) -> Seq<char> {
    match legacy {
        Some(l) => {
            if l.len() > 0 {
                l
            } else {
                no_name_title()
            }
        },
        None => no_name_title(),
    }
}

/// The two-tier fallback rule for window titles: the modern name wins when
/// present and non-empty, then the legacy name when present and non-empty,
/// and the sentinel covers the rest.
pub open spec fn chosen_title(modern: Option<Seq<char>>, legacy: Option<Seq<char>>) -> Seq<char> {
    match modern {
        Some(m) => {
            if m.len() > 0 {
                m
            } else {
                legacy_or_sentinel(legacy)
            }
        },
        None => legacy_or_sentinel(legacy),
    }
}

pub fn choose_title(modern: Option<String>, legacy: Option<String>) -> (r: String)
    ensures
        r@ == chosen_title(opt_title_view(modern), opt_title_view(legacy)),
        r@.len() > 0,
{
    proof {
        reveal_strlit("<No Name>");
    }
    match modern {
        Some(m) => {
            if !m.as_str().is_empty() {
                return m;
            }
            choose_legacy(legacy)
        },
        None => choose_legacy(legacy),
    }
}

fn choose_legacy(legacy: Option<String>) -> (r: String)
    ensures
        r@ == chosen_title(None, opt_title_view(legacy)),
        r@.len() > 0,
{
    proof {
        reveal_strlit("<No Name>");
    }
    match legacy {
        Some(l) => {
            if !l.as_str().is_empty() {
                return l;
            }
            "<No Name>".to_owned()
        },
        None => "<No Name>".to_owned(),
    }
}

} // verus!
