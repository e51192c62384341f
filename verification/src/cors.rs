use vstd::prelude::*;

use crate::text::{owned, text_eq, trim, trim_ws};

verus! {

/// The pieces of `s` between commas (one piece when there is no comma).
pub open spec fn split_commas(s: Seq<char>) -> Seq<Seq<char>>
    decreases s.len(),
{
    if s.len() == 0 {
        seq![Seq::empty()]
    } else {
        let parts = split_commas(s.drop_last());
        if s.last() == ',' {
            parts.push(Seq::empty())
        } else {
            parts.update(parts.len() - 1, parts.last().push(s.last()))
        }
    }
}

/// The pieces, trimmed, without the empty ones.
pub open spec fn kept_pieces(parts: Seq<Seq<char>>) -> Seq<Seq<char>>
    decreases parts.len(),
{
    if parts.len() == 0 {
        Seq::empty()
    } else {
        kept_pieces(parts.drop_last()) + if trim_ws(parts.last()).len() > 0 {
            seq![trim_ws(parts.last())]
        } else {
            Seq::empty()
        }
    }
}

/// The origins a `CORS_ALLOWED_ORIGINS` value lists: its comma-separated
/// entries, trimmed, empty ones left out.
pub open spec fn listed_origins(raw: Seq<char>) -> Seq<Seq<char>> {
    kept_pieces(split_commas(raw))
}

pub open spec fn views(v: Seq<String>) -> Seq<Seq<char>> {
    v.map_values(|s: String| s@)
}

proof fn lemma_split_nonempty(s: Seq<char>)
    ensures
        split_commas(s).len() >= 1,
    decreases s.len(),
{
    if s.len() > 0 {
        lemma_split_nonempty(s.drop_last());
    }
}

fn push_kept(out: &mut Vec<String>, piece: &str)
    ensures
        views(final(out)@) == views(old(out)@) + if trim_ws(piece@).len() > 0 {
            seq![trim_ws(piece@)]
        } else {
            Seq::<Seq<char>>::empty()
        },
{
    let t = trim(piece);
    if t.unicode_len() > 0 {
        out.push(owned(t));
        proof {
            assert(views(out@) =~= views(old(out)@) + seq![trim_ws(piece@)]);
        }
    } else {
        proof {
            assert(views(out@) =~= views(old(out)@) + Seq::<Seq<char>>::empty());
        }
    }
}

/// The origins listed in a `CORS_ALLOWED_ORIGINS` value.
pub fn parse_allowed_origins(raw: &str) -> (res: Vec<String>)
    ensures
        views(res@) == listed_origins(raw@),
{
    let n = raw.unicode_len();
    let mut out: Vec<String> = Vec::new();
    let mut cur = String::new();
    let ghost mut done: Seq<Seq<char>> = Seq::empty();
    proof {
        assert(raw@.take(0) =~= Seq::<char>::empty());
        assert(split_commas(raw@.take(0)) =~= done.push(cur@));
        assert(views(out@) =~= kept_pieces(done));
    }
    let mut i: usize = 0;
    while i < n
        invariant
            n == raw@.len(),
            i <= n,
            split_commas(raw@.take(i as int)) == done.push(cur@),
            views(out@) == kept_pieces(done),
        decreases n - i,
    {
        let piece = raw.substring_char(i, i + 1);
        let c = raw.get_char(i);
        proof {
            assert(raw@.take(i + 1).drop_last() =~= raw@.take(i as int));
            assert(raw@.take(i + 1).last() == c);
            lemma_split_nonempty(raw@.take(i as int));
        }
        if c == ',' {
            let ghost old_done = done;
            push_kept(&mut out, cur.as_str());
            proof {
                done = done.push(cur@);
                assert(done.drop_last() =~= old_done);
            }
            cur = String::new();
            proof {
                assert(split_commas(raw@.take(i + 1)) =~= done.push(cur@));
            }
        } else {
            let ghost old_cur = cur@;
            cur.append(piece);
            proof {
                assert(piece@ =~= seq![c]);
                assert(cur@ =~= old_cur.push(c));
                assert(split_commas(raw@.take(i + 1)) =~= done.push(cur@));
            }
        }
        i = i + 1;
    }
    let ghost old_done = done;
    push_kept(&mut out, cur.as_str());
    proof {
        let all = done.push(cur@);
        assert(all.drop_last() =~= old_done);
        assert(raw@.take(n as int) =~= raw@);
    }
    out
}

} // verus!

verus! {

/// Position of the first `://` in `s` at or after `i`, if any.
pub open spec fn scheme_sep_from(s: Seq<char>, i: nat) -> Option<nat>
    decreases s.len() - i,
{
    if i + 3 > s.len() {
        None
    } else if s[i as int] == ':' && s[i + 1int] == '/' && s[i + 2int] == '/' {
        Some(i)
    } else {
        scheme_sep_from(s, i + 1)
    }
}

/// An origin without its scheme (`scheme://`), when it has one.
pub open spec fn after_scheme(origin: Seq<char>) -> Seq<char> {
    match scheme_sep_from(origin, 0) {
        Some(p) => origin.skip(p + 3int),
        None => origin,
    }
}

/// Position of the first `:` or `/` in `t` at or after `i`, or its length.
pub open spec fn host_end_from(t: Seq<char>, i: nat) -> nat
    decreases t.len() - i,
{
    if i >= t.len() {
        t.len()
    } else if t[i as int] == ':' || t[i as int] == '/' {
        i
    } else {
        host_end_from(t, i + 1)
    }
}

/// The host of an origin: what follows the scheme, up to a port or path.
pub open spec fn origin_host(origin: Seq<char>) -> Seq<char> {
    let t = after_scheme(origin);
    t.take(host_end_from(t, 0) as int)
}

/// The hosts accepted without being listed: `localhost`, `127.0.0.1`, and
/// `sslip.io` with its subdomains.
pub open spec fn auto_allowed_host(h: Seq<char>) -> bool {
    ||| h == "localhost"@
    ||| h == "127.0.0.1"@
    ||| h == "sslip.io"@
    ||| (h.len() > 9 && h.skip(h.len() - 9) == ".sslip.io"@)
}

/// Whether a browser origin may call the API: it is listed exactly, or its
/// host is accepted without being listed.
pub open spec fn origin_allowed_spec(listed: Seq<Seq<char>>, origin: Seq<char>) -> bool {
    listed.contains(origin) || auto_allowed_host(origin_host(origin))
}

fn find_scheme_sep(origin: &str) -> (res: Option<usize>)
    ensures
        match res {
            Some(p) => scheme_sep_from(origin@, 0) == Some(p as nat) && p + 3 <= origin@.len(),
            None => scheme_sep_from(origin@, 0) is None,
        },
{
    let n = origin.unicode_len();
    let mut i: usize = 0;
    while i < n
        invariant
            n == origin@.len(),
            i <= n,
            scheme_sep_from(origin@, 0) == scheme_sep_from(origin@, i as nat),
        decreases n - i,
    {
        if n - i < 3 {
            return None;
        }
        if origin.get_char(i) == ':' && origin.get_char(i + 1) == '/' && origin.get_char(i + 2)
            == '/' {
            return Some(i);
        }
        i = i + 1;
    }
    None
}

fn find_host_end(t: &str) -> (res: usize)
    ensures
        res == host_end_from(t@, 0),
        res <= t@.len(),
{
    let m = t.unicode_len();
    let mut j: usize = 0;
    while j < m
        invariant
            m == t@.len(),
            j <= m,
            host_end_from(t@, 0) == host_end_from(t@, j as nat),
        decreases m - j,
    {
        let c = t.get_char(j);
        if c == ':' || c == '/' {
            return j;
        }
        j = j + 1;
    }
    j
}

/// The host of an origin.
pub fn origin_host_of(origin: &str) -> (res: String)
    ensures
        res@ == origin_host(origin@),
{
    let n = origin.unicode_len();
    let start: usize = match find_scheme_sep(origin) {
        Some(p) => p + 3,
        None => 0,
    };
    proof {
        if scheme_sep_from(origin@, 0) is None {
            assert(origin@.skip(0) =~= origin@);
        }
    }
    let rest = origin.substring_char(start, n);
    assert(rest@ =~= after_scheme(origin@));
    let end = find_host_end(rest);
    owned(rest.substring_char(0, end))
}

/// Whether a browser origin may call the API, given the listed origins.
pub fn origin_allowed(allowed: &Vec<String>, origin: &str) -> (res: bool)
    ensures
        res == origin_allowed_spec(views(allowed@), origin@),
{
    let mut i: usize = 0;
    while i < allowed.len()
        invariant
            i <= allowed@.len(),
            forall|k: int| 0 <= k < i ==> allowed@[k]@ != origin@,
        decreases allowed@.len() - i,
    {
        if text_eq(allowed[i].as_str(), origin) {
            proof {
                assert(views(allowed@)[i as int] == origin@);
            }
            return true;
        }
        i = i + 1;
    }
    proof {
        if views(allowed@).contains(origin@) {
            let k = choose|k: int| 0 <= k < views(allowed@).len() && views(allowed@)[k] == origin@;
            assert(allowed@[k]@ == origin@);
        }
    }
    let host = origin_host_of(origin);
    let h = host.as_str();
    if text_eq(h, "localhost") || text_eq(h, "127.0.0.1") || text_eq(h, "sslip.io") {
        return true;
    }
    let len = h.unicode_len();
    if len > 9 {
        let tail = h.substring_char(len - 9, len);
        proof {
            assert(tail@ =~= h@.skip(len - 9));
        }
        return text_eq(tail, ".sslip.io");
    }
    false
}

} // verus!
