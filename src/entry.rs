use vstd::prelude::*;
use crate::text::{chars_of, string_of};

verus! {

/// A candidate proxy, `host:port`, as written on one line of the proxy list.
pub struct ProxyEntry {
    pub host: String,
    pub port: String,
}

/// Whether `k` is the position of the one and only colon of `s`.
pub open spec fn single_colon_at(s: Seq<char>, k: int) -> bool {
    &&& 0 <= k < s.len()
    &&& s[k] == ':'
    &&& forall|j: int| 0 <= j < s.len() && j != k ==> s[j] != ':'
}

/// Whether a line splits at colons into exactly two parts.
pub open spec fn is_entry_line(s: Seq<char>) -> bool {
    exists|k: int| single_colon_at(s, k)
}

/// Parses one line of the proxy list: `Some` exactly when the line holds exactly one colon,
/// with the text before it as host and the text after it as port. Neither part is checked
/// further.
pub fn parse_entry(line: &str) -> (r: Option<ProxyEntry>)
    ensures
        r is Some <==> is_entry_line(line@),
        r matches Some(e) ==> {
            &&& single_colon_at(line@, e.host@.len() as int)
            &&& e.host@ == line@.take(e.host@.len() as int)
            &&& e.port@ == line@.skip(e.host@.len() as int + 1)
        },
{
    let cs = chars_of(line);
    let mut first: usize = 0;
    let mut second: usize = 0;
    let mut count: usize = 0;
    let mut i: usize = 0;
    while i < cs.len()
        invariant
            cs@ == line@,
            i <= cs@.len(),
            count <= 2,
            count == 0 ==> forall|j: int| 0 <= j < i ==> cs@[j] != ':',
            count >= 1 ==> first < i && cs@[first as int] == ':',
            count == 1 ==> forall|j: int| 0 <= j < i && j != first ==> cs@[j] != ':',
            count == 2 ==> second < i && second != first && cs@[second as int] == ':',
        decreases cs@.len() - i,
    {
        if cs[i] == ':' {
            if count == 0 {
                first = i;
                count = 1;
            } else if count == 1 {
                second = i;
                count = 2;
            }
        }
        i = i + 1;
    }
    if count != 1 {
        proof {
            if count == 2 {
                assert forall|k: int| !single_colon_at(line@, k) by {
                    if single_colon_at(line@, k) {
                        assert(k == first as int);
                        assert(k == second as int);
                    }
                }
            } else {
                assert forall|k: int| !single_colon_at(line@, k) by {
                    if single_colon_at(line@, k) {
                        assert(cs@[k] != ':');
                    }
                }
            }
        }
        return None;
    }
    let host = string_of(&cs, 0, first);
    let port = string_of(&cs, first + 1, cs.len());
    assert(single_colon_at(line@, first as int));
    Some(ProxyEntry { host, port })
}

impl ProxyEntry {
    /// The entry written back as `host:port`.
    pub fn address(&self) -> (r: String)
        ensures
            r@ == self.host@ + seq![':'] + self.port@,
    {
        let mut r = self.host.clone();
        crate::text::push_char(&mut r, ':');
        let pc = chars_of(self.port.as_str());
        let mut i: usize = 0;
        while i < pc.len()
            invariant
                pc@ == self.port@,
                i <= pc@.len(),
                r@ == self.host@ + seq![':'] + pc@.take(i as int),
            decreases pc@.len() - i,
        {
            crate::text::push_char(&mut r, pc[i]);
            assert(pc@.take(i + 1) == pc@.take(i as int).push(pc@[i as int]));
            i = i + 1;
        }
        assert(pc@.take(pc@.len() as int) == pc@);
        r
    }
}

} // verus!
