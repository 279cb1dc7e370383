//! The remote index client's parsing half: the mirror's listing body is
//! one installable version per line, in the order the mirror serves them.
//! The transport is an external collaborator; a non-successful response
//! is a hard failure, never an empty listing.

use vstd::prelude::*;
use vstd::string::StrSliceExecFns;

use crate::error::FrumError;
use crate::text::find_char_from;
use crate::text::find_from;
use crate::text::lemma_find_from;
use crate::version::parse_semver_spec;
use crate::version::Semver;
use crate::version::SemverView;

verus! {

/// One listable, installable version from the mirror's index.
/// Its archive location follows from the version itself
/// (see `crate::install::package_url`).
#[derive(Debug, Clone, PartialEq, Eq)]
pub struct RemoteVersionEntry {
    pub version: Semver,
}

/// The versions a listing body denotes, from position `pos` on: one
/// canonical version per line; lines that do not parse are passed over.
pub open spec fn index_entries_from(s: Seq<char>, pos: int) -> Seq<SemverView>
    decreases s.len() - pos,
{
    if pos < 0 || pos >= s.len() {
        Seq::empty()
    } else {
        let nl0 = find_from(s, '\n', pos);
        let nl = if nl0 < pos {
            pos
        } else if nl0 > s.len() {
            s.len() as int
        } else {
            nl0
        };
        let line = s.subrange(pos, nl);
        let rest = if nl < s.len() {
            index_entries_from(s, nl + 1)
        } else {
            Seq::empty()
        };
        match parse_semver_spec(line) {
            Some(t) => seq![t] + rest,
            None => rest,
        }
    }
}

/// The versions a listing body denotes, in the order served.
pub open spec fn index_entries(s: Seq<char>) -> Seq<SemverView> {
    index_entries_from(s, 0)
}

/// The version shapes of a sequence of entries.
pub open spec fn entry_views(es: Seq<RemoteVersionEntry>) -> Seq<SemverView> {
    es.map_values(|e: RemoteVersionEntry| e.version@)
}

/// Why a listing response is a hard failure: the transport did not
/// deliver a response at all, the status was not a success, or a
/// successful response listed no version.
pub open spec fn listing_failure_cause(status: Option<u16>, body: Seq<char>) -> Seq<char> {
    match status {
        None => "transport failure"@,
        Some(st) => if !(200 <= st < 300) {
            "unexpected response status"@
        } else {
            "empty version listing"@
        },
    }
}

/// Parses the listing response; `status` is `None` when the transport
/// could not deliver a response at all. Every listing failure — no
/// response, a non-2xx status, or a response listing no version — is a
/// hard `RemoteListingFailure`, never an empty candidate set; a
/// successful response yields exactly the versions its body lists, in
/// order.
pub fn parse_remote_index(status: Option<u16>, body: &str) -> (r: Result<
    Vec<RemoteVersionEntry>,
    FrumError,
>)
    ensures
        r is Ok <==> (status matches Some(st) && 200 <= st < 300 && index_entries(body@).len()
            > 0),
        r matches Ok(es) ==> entry_views(es@) == index_entries(body@),
        r matches Err(e) ==> e matches FrumError::RemoteListingFailure { cause } && cause@
            == listing_failure_cause(status, body@),
{
    let st = match status {
        Some(st) => st,
        None => {
            return Err(
                FrumError::RemoteListingFailure { cause: String::from_str("transport failure") },
            );
        },
    };
    if !(200 <= st && st < 300) {
        return Err(
            FrumError::RemoteListingFailure {
                cause: String::from_str("unexpected response status"),
            },
        );
    }
    let n = body.unicode_len();
    let mut out: Vec<RemoteVersionEntry> = Vec::new();
    let mut pos: usize = 0;
    while pos < n
        invariant
            0 <= pos <= n == body@.len(),
            index_entries(body@) == entry_views(out@) + index_entries_from(body@, pos as int),
        decreases n - pos,
    {
        let nl = find_char_from(body, '\n', pos);
        proof {
            lemma_find_from(body@, '\n', pos as int);
        }
        let line = body.substring_char(pos, nl);
        let ghost before = out@;
        match Semver::parse(line) {
            Some(v) => {
                out.push(RemoteVersionEntry { version: v });
                proof {
                    assert(entry_views(out@) =~= entry_views(before).push(v@));
                }
            },
            None => {},
        }
        proof {
            assert(entry_views(out@) + index_entries_from(body@, if nl < n {
                nl + 1 as int
            } else {
                n as int
            }) =~= index_entries(body@));
        }
        if nl < n {
            pos = nl + 1;
        } else {
            pos = n;
        }
    }
    proof {
        assert(entry_views(out@) =~= index_entries(body@));
    }
    if out.len() == 0 {
        proof {
            assert(index_entries(body@).len() == 0);
        }
        return Err(
            FrumError::RemoteListingFailure { cause: String::from_str("empty version listing") },
        );
    }
    Ok(out)
}

} // verus!
