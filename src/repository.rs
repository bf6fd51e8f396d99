use vstd::prelude::*;
use crate::proxy::{spec_parse, Proxy, ProxyView};
use crate::text::{chars_of, find_char, index_of, slice_of, string_of, trim, trim_of};

verus! {

/// The pieces of `s` between commas, in order.
pub open spec fn comma_fields(s: Seq<char>) -> Seq<Seq<char>>
    decreases s.len(),
{
    let k = index_of(s, ',', 0);
    if k < 0 || k >= s.len() {
        seq![s]
    } else {
        seq![s.subrange(0, k)] + comma_fields(s.subrange(k + 1, s.len() as int))
    }
}

/// The trimmed pieces that are not empty, in order.
pub open spec fn non_empty_trimmed(pieces: Seq<Seq<char>>) -> Seq<Seq<char>>
    decreases pieces.len(),
{
    if pieces.len() == 0 {
        Seq::empty()
    } else {
        let t = trim_of(pieces[0]);
        let rest = non_empty_trimmed(pieces.drop_first());
        if t.len() == 0 {
            rest
        } else {
            seq![t] + rest
        }
    }
}

/// The proxies among `entries` that parse, in order; the others are skipped.
pub open spec fn parsed_entries(entries: Seq<Seq<char>>) -> Seq<ProxyView>
    decreases entries.len(),
{
    if entries.len() == 0 {
        Seq::empty()
    } else {
        let rest = parsed_entries(entries.drop_first());
        match spec_parse(entries[0]) {
            Ok(p) => seq![p] + rest,
            Err(_) => rest,
        }
    }
}

/// The proxy on one line of a proxy list: `None` for a blank line or one that
/// does not parse once trimmed.
pub fn proxy_from_line(line: &str) -> (r: Option<Proxy>)
    ensures
        match spec_parse(trim_of(line@)) {
            Ok(p) => r matches Some(q) && q@ == p,
            Err(_) => r is None,
        },
{
    let t = trim(line);
    match Proxy::from_str(t.as_str()) {
        Ok(p) => Some(p),
        Err(_) => None,
    }
}

/// Proxies given inline, as a comma-separated list.
pub struct StringProxyRepository {
    proxies: Vec<String>,
}

impl StringProxyRepository {
    pub closed spec fn entries(&self) -> Seq<Seq<char>> {
        self.proxies@.map_values(|x: String| x@)
    }

    /// Splits `proxies_str` at commas and keeps the trimmed pieces that are
    /// not empty.
    pub fn new(proxies_str: &str) -> (r: StringProxyRepository)
        ensures
            r.entries() == non_empty_trimmed(comma_fields(proxies_str@)),
    {
        let mut rest = chars_of(proxies_str);
        let mut out: Vec<String> = Vec::new();
        assert(out@.map_values(|x: String| x@) =~= Seq::<Seq<char>>::empty());
        loop
            invariant
                out@.map_values(|x: String| x@) + non_empty_trimmed(comma_fields(rest@))
                    == non_empty_trimmed(comma_fields(proxies_str@)),
            decreases rest@.len(),
        {
            let k = find_char(&rest, ',', 0);
            let piece = string_of(&rest, 0, k);
            let t = trim(piece.as_str());
            let ghost before = out@.map_values(|x: String| x@);
            let ghost fields = comma_fields(rest@);
            assert(fields[0] == piece@);
            assert(fields.drop_first() =~= if k >= rest@.len() {
                Seq::<Seq<char>>::empty()
            } else {
                comma_fields(rest@.subrange(k + 1, rest@.len() as int))
            });
            let ghost tail = non_empty_trimmed(fields.drop_first());
            assert(non_empty_trimmed(fields) == if t@.len() == 0 {
                tail
            } else {
                seq![t@] + tail
            });
            if !t.as_str().is_empty() {
                out.push(t);
                assert(out@.map_values(|x: String| x@) =~= before.push(t@));
                assert(before + (seq![t@] + tail) =~= before.push(t@) + tail);
            }
            assert(out@.map_values(|x: String| x@) + tail == non_empty_trimmed(
                comma_fields(proxies_str@),
            ));
            if k == rest.len() {
                assert(out@.map_values(|x: String| x@) =~= out@.map_values(|x: String| x@) + tail);
                return StringProxyRepository { proxies: out };
            }
            rest = slice_of(&rest, k + 1, rest.len());
        }
    }

    /// The kept entries, in order.
    pub fn proxies(&self) -> (r: &Vec<String>)
        ensures
            r@.map_values(|x: String| x@) == self.entries(),
    {
        &self.proxies
    }

    /// The entries that parse as proxies, in order.
    pub fn parsed_proxies(&self) -> (r: Vec<Proxy>)
        ensures
            r@.map_values(|p: Proxy| p@) == parsed_entries(self.entries()),
    {
        let mut out: Vec<Proxy> = Vec::new();
        let mut i: usize = 0;
        assert(self.entries().skip(0) =~= self.entries());
        assert(out@.map_values(|p: Proxy| p@) =~= Seq::<ProxyView>::empty());
        while i < self.proxies.len()
            invariant
                i <= self.proxies@.len(),
                out@.map_values(|p: Proxy| p@) + parsed_entries(self.entries().skip(i as int))
                    == parsed_entries(self.entries()),
            decreases self.proxies@.len() - i,
        {
            let ghost before = out@.map_values(|p: Proxy| p@);
            let ghost tail = self.entries().skip(i as int);
            assert(tail.drop_first() =~= self.entries().skip(i + 1));
            assert(tail[0] == self.proxies@[i as int]@);
            match Proxy::from_str(self.proxies[i].as_str()) {
                Ok(p) => {
                    out.push(p);
                    assert(out@.map_values(|p: Proxy| p@) =~= before.push(p@));
                },
                Err(_) => {},
            }
            i = i + 1;
        }
        assert(self.entries().skip(i as int) =~= Seq::<Seq<char>>::empty());
        out
    }
}

} // verus!

verus! {

#[verifier::external_type_specification]
#[verifier::external_body]
pub struct ExPathBuf(std::path::PathBuf);

/// Proxies listed one per line in a file.
pub struct FileProxyRepository {
    path: std::path::PathBuf,
}

impl FileProxyRepository {
    pub fn new(path: std::path::PathBuf) -> (r: FileProxyRepository)
        ensures
            r.path() == path,
    {
        FileProxyRepository { path }
    }

    pub closed spec fn path(&self) -> std::path::PathBuf {
        self.path
    }

    /// The file the proxies are read from.
    pub fn get_path(&self) -> (r: &std::path::PathBuf)
        ensures
            *r == self.path(),
    {
        &self.path
    }
}

} // verus!
