use vstd::prelude::*;

verus! {

/// What `form_urlencoded` decodes from a body: the name/value pairs in the
/// order they appear, percent-decoded, with `+` read as a space.
pub uninterp spec fn form_pairs(body: Seq<u8>) -> Seq<(Seq<char>, Seq<char>)>;

/// The views of a list of owned name/value pairs.
pub open spec fn pairs_view(p: Seq<(String, String)>) -> Seq<(Seq<char>, Seq<char>)> {
    p.map_values(|e: (String, String)| (e.0@, e.1@))
}

/// The value of the last pair named `k`: on a repeated name the last one wins.
pub open spec fn last_value(p: Seq<(Seq<char>, Seq<char>)>, k: Seq<char>) -> Option<Seq<char>>
    decreases p.len(),
{
    if p.len() == 0 {
        None
    } else if p.last().0 == k {
        Some(p.last().1)
    } else {
        last_value(p.drop_last(), k)
    }
}

/// The flat name-to-value mapping that a list of pairs stands for.
pub open spec fn form_map(p: Seq<(Seq<char>, Seq<char>)>) -> Map<Seq<char>, Seq<char>> {
    Map::new(|k: Seq<char>| last_value(p, k) is Some, |k: Seq<char>| last_value(p, k)->0)
}

/// Relies on `form_urlencoded::parse` followed by `into_owned`: the pairs of
/// an `application/x-www-form-urlencoded` body in order; an empty body has none.
#[verifier::external_body]
fn decode_pairs(body: &[u8]) -> (r: Vec<(String, String)>)
    ensures
        pairs_view(r@) == form_pairs(body@),
        body@.len() == 0 ==> r@.len() == 0,
{
    form_urlencoded::parse(body).into_owned().collect()
}

/// A submitted form: every decoded pair, read through the last-wins mapping.
#[derive(Debug, Clone)]
pub struct FormData {
    pub pairs: Vec<(String, String)>,
}

impl View for FormData {
    type V = Map<Seq<char>, Seq<char>>;

    open spec fn view(&self) -> Map<Seq<char>, Seq<char>> {
        form_map(pairs_view(self.pairs@))
    }
}

impl FormData {
    /// Decodes a form body.
    pub fn parse(body: &[u8]) -> (r: FormData)
        ensures
            pairs_view(r.pairs@) == form_pairs(body@),
            r@ == form_map(form_pairs(body@)),
    {
        FormData { pairs: decode_pairs(body) }
    }

    /// The value submitted under `key`; the last one when it was repeated.
    pub fn get(&self, key: &String) -> (r: Option<&String>)
        ensures
            match r {
                Some(v) => self@.contains_key(key@) && self@[key@] == v@,
                None => !self@.contains_key(key@),
            },
            match r {
                Some(v) => last_value(pairs_view(self.pairs@), key@) == Some(v@),
                None => last_value(pairs_view(self.pairs@), key@) is None,
            },
    {
        let ghost p = pairs_view(self.pairs@);
        let mut i: usize = self.pairs.len();
        assert(p.take(i as int) =~= p);
        while i > 0
            invariant
                i <= self.pairs@.len(),
                p == pairs_view(self.pairs@),
                last_value(p, key@) == last_value(p.take(i as int), key@),
            decreases i,
        {
            let ghost t = p.take(i as int);
            assert(t.drop_last() =~= p.take(i - 1));
            if self.pairs[i - 1].0 == *key {
                return Some(&self.pairs[i - 1].1);
            }
            i = i - 1;
        }
        assert(p.take(0) =~= Seq::<(Seq<char>, Seq<char>)>::empty());
        None
    }
}

} // verus!
