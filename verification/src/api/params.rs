//! Query parameters and the textual form of the values they carry.

use vstd::prelude::*;
use crate::bindings::weburl::{
    octets, pair_cost, url_append_pair, url_as_str, url_fragment, url_limit, url_query_pairs,
    url_resource, url_size,
};

verus! {

/// The ten decimal digits, in order.
pub open spec fn digit_chars() -> Seq<char> {
    seq!['0', '1', '2', '3', '4', '5', '6', '7', '8', '9']
}

/// The decimal numeral of `n`, without leading zeros.
pub open spec fn decimal(n: nat) -> Seq<char>
    decreases n,
{
    if n < 10 {
        seq![digit_chars()[n as int]]
    } else {
        decimal(n / 10).push(digit_chars()[(n % 10) as int])
    }
}

fn digit_text(d: u64) -> (s: &'static str)
    requires
        d < 10,
    ensures
        s@ == seq![digit_chars()[d as int]],
{
    proof {
        reveal_strlit("0");
        reveal_strlit("1");
        reveal_strlit("2");
        reveal_strlit("3");
        reveal_strlit("4");
        reveal_strlit("5");
        reveal_strlit("6");
        reveal_strlit("7");
        reveal_strlit("8");
        reveal_strlit("9");
    }
    let s = if d == 0 {
        "0"
    } else if d == 1 {
        "1"
    } else if d == 2 {
        "2"
    } else if d == 3 {
        "3"
    } else if d == 4 {
        "4"
    } else if d == 5 {
        "5"
    } else if d == 6 {
        "6"
    } else if d == 7 {
        "7"
    } else if d == 8 {
        "8"
    } else {
        "9"
    };
    assert(s@ =~= seq![digit_chars()[d as int]]);
    s
}

/// Writes `n` in decimal.
pub fn decimal_text(n: u64) -> (s: String)
    ensures
        s@ == decimal(n as nat),
    decreases n,
{
    if n < 10 {
        String::from_str(digit_text(n))
    } else {
        let mut s = decimal_text(n / 10);
        s.append(digit_text(n % 10));
        assert(s@ =~= decimal(n as nat));
        s
    }
}

/// A value that can stand on the right-hand side of a query parameter.
pub trait ParamValue {
    /// The text that represents the value in a query.
    spec fn value_text(&self) -> Seq<char>;

    /// The parameter value as a string.
    fn as_value(&self) -> (s: String)
        ensures
            s@ == self.value_text(),
    ;
}

impl ParamValue for bool {
    open spec fn value_text(&self) -> Seq<char> {
        if *self {
            "true"@
        } else {
            "false"@
        }
    }

    fn as_value(&self) -> (s: String) {
        if *self {
            String::from_str("true")
        } else {
            String::from_str("false")
        }
    }
}

impl<'a> ParamValue for &'a str {
    open spec fn value_text(&self) -> Seq<char> {
        self@
    }

    fn as_value(&self) -> (s: String) {
        String::from_str(*self)
    }
}

impl ParamValue for String {
    open spec fn value_text(&self) -> Seq<char> {
        self@
    }

    fn as_value(&self) -> (s: String) {
        self.clone()
    }
}

impl<'a> ParamValue for &'a String {
    open spec fn value_text(&self) -> Seq<char> {
        self@
    }

    fn as_value(&self) -> (s: String) {
        (*self).clone()
    }
}

impl ParamValue for u8 {
    open spec fn value_text(&self) -> Seq<char> {
        decimal(*self as nat)
    }

    fn as_value(&self) -> (s: String) {
        decimal_text(*self as u64)
    }
}

impl ParamValue for u64 {
    open spec fn value_text(&self) -> Seq<char> {
        decimal(*self as nat)
    }

    fn as_value(&self) -> (s: String) {
        decimal_text(*self)
    }
}

/// The boolean that a parameter text stands for, if it stands for one.
pub open spec fn decoded_bool(text: Seq<char>) -> Option<bool> {
    if text == "true"@ {
        Some(true)
    } else if text == "false"@ {
        Some(false)
    } else {
        None
    }
}

/// Reads a boolean back from its parameter text.
pub fn bool_from_value(text: &str) -> (b: Option<bool>)
    ensures
        b == decoded_bool(text@),
{
    if str_equal(text, "true") {
        Some(true)
    } else if str_equal(text, "false") {
        Some(false)
    } else {
        None
    }
}

/// Decides whether two strings hold the same characters.
pub fn str_equal(a: &str, b: &str) -> (same: bool)
    ensures
        same == (a@ == b@),
{
    let n = a.unicode_len();
    if n != b.unicode_len() {
        return false;
    }
    let mut i: usize = 0;
    while i < n
        invariant
            n == a@.len(),
            n == b@.len(),
            i <= n,
            forall|j: int| 0 <= j < i ==> a@[j] == b@[j],
        decreases n - i,
    {
        if a.get_char(i) != b.get_char(i) {
            return false;
        }
        i += 1;
    }
    assert(a@ =~= b@);
    true
}

/// Encoding a boolean and decoding the text gives the boolean back.
pub proof fn lemma_bool_round_trip(b: bool)
    ensures
        decoded_bool(b.value_text()) == Some(b),
{
    reveal_strlit("true");
    reveal_strlit("false");
    assert("true"@.len() == 4);
    assert("false"@.len() == 5);
}

/// The most octets by which query pairs make a serialization longer.
pub open spec fn pairs_cost(pairs: Seq<(Seq<char>, Seq<char>)>) -> nat
    decreases pairs.len(),
{
    if pairs.len() == 0 {
        0
    } else {
        pairs_cost(pairs.drop_last()) + pair_cost(pairs.last().0, pairs.last().1)
    }
}

/// The cost of a list of one pair is the cost of the pair.
pub proof fn lemma_pairs_cost_single(name: Seq<char>, value: Seq<char>)
    ensures
        pairs_cost(seq![(name, value)]) == pair_cost(name, value),
{
    reveal_with_fuel(pairs_cost, 2);
    assert(seq![(name, value)].drop_last() =~= Seq::empty());
}

/// The cost of the first pairs of a list, one more at a time.
pub proof fn lemma_pairs_cost_step(pairs: Seq<(Seq<char>, Seq<char>)>, i: int)
    requires
        0 <= i < pairs.len(),
    ensures
        pairs_cost(pairs.subrange(0, i + 1)) == pairs_cost(pairs.subrange(0, i)) + pair_cost(
            pairs[i].0,
            pairs[i].1,
        ),
{
    assert(pairs.subrange(0, i + 1).drop_last() =~= pairs.subrange(0, i));
}

/// The first pairs of a list cost no more than the whole list.
pub proof fn lemma_pairs_cost_grows(pairs: Seq<(Seq<char>, Seq<char>)>, i: int)
    requires
        0 <= i <= pairs.len(),
    ensures
        pairs_cost(pairs.subrange(0, i)) <= pairs_cost(pairs),
    decreases pairs.len() - i,
{
    if i == pairs.len() {
        assert(pairs.subrange(0, i) =~= pairs);
    } else {
        lemma_pairs_cost_step(pairs, i);
        lemma_pairs_cost_grows(pairs, i + 1);
    }
}

/// The cost of two lists put together is the sum of their costs.
pub proof fn lemma_pairs_cost_concat(
    a: Seq<(Seq<char>, Seq<char>)>,
    b: Seq<(Seq<char>, Seq<char>)>,
)
    ensures
        pairs_cost(a + b) == pairs_cost(a) + pairs_cost(b),
    decreases b.len(),
{
    if b.len() == 0 {
        assert(a + b =~= a);
    } else {
        assert((a + b).drop_last() =~= a + b.drop_last());
        assert((a + b).last() == b.last());
        lemma_pairs_cost_concat(a, b.drop_last());
    }
}

/// The largest number of octets a serialization may have.
pub const URL_LIMIT: u64 = 0xFFFF_FFFF;

/// The number of octets that a text takes in UTF-8.
pub fn octet_count(text: &str) -> (n: usize)
    ensures
        n == octets(text@),
{
    text.as_bytes().len()
}

/// Whether a URL has room for one more query pair.
pub fn pair_fits(url: &url::Url, name: &str, value: &str) -> (fits: bool)
    ensures
        fits == (url_size(*url) + pair_cost(name@, value@) <= url_limit()),
{
    let size = octet_count(url_as_str(url));
    let n = octet_count(name);
    let v = octet_count(value);
    if size > URL_LIMIT as usize || n > URL_LIMIT as usize || v > URL_LIMIT as usize {
        return false;
    }
    size as u64 + 3 * (n as u64 + v as u64) + 2 <= URL_LIMIT
}

/// An ordered list of query parameters. Names may repeat; every pair is kept.
#[derive(Debug, Clone)]
pub struct QueryParams {
    params: Vec<(String, String)>,
}

impl View for QueryParams {
    type V = Seq<(Seq<char>, Seq<char>)>;

    closed spec fn view(&self) -> Seq<(Seq<char>, Seq<char>)> {
        Seq::new(self.params@.len(), |i: int| (self.params@[i].0@, self.params@[i].1@))
    }
}

impl Default for QueryParams {
    fn default() -> (p: QueryParams)
        ensures
            p@ == Seq::<(Seq<char>, Seq<char>)>::empty(),
    {
        QueryParams::new()
    }
}

impl QueryParams {
    /// An empty list.
    pub fn new() -> (p: QueryParams)
        ensures
            p@ == Seq::<(Seq<char>, Seq<char>)>::empty(),
    {
        let p = QueryParams { params: Vec::new() };
        assert(p@ =~= Seq::<(Seq<char>, Seq<char>)>::empty());
        p
    }

    /// Push a single parameter.
    pub fn push<V: ParamValue>(&mut self, key: &str, value: V) -> (ret: &mut Self)
        ensures
            ret@ == old(self)@.push((key@, value.value_text())),
            *final(self) == *final(ret),
    {
        let k = String::from_str(key);
        let v = value.as_value();
        self.params.push((k, v));
        assert(self@ =~= old(self)@.push((key@, value.value_text())));
        self
    }

    /// Push a single parameter, if there is a value for it.
    pub fn push_opt<V: ParamValue>(&mut self, key: &str, value: Option<V>) -> (ret: &mut Self)
        ensures
            ret@ == match value {
                Some(v) => old(self)@.push((key@, v.value_text())),
                None => old(self)@,
            },
            *final(self) == *final(ret),
    {
        if let Some(v) = value {
            let k = String::from_str(key);
            let v = v.as_value();
            self.params.push((k, v));
            assert(self@ =~= old(self)@.push((key@, value.unwrap().value_text())));
        }
        self
    }

    /// Push a set of parameters, in the order given.
    pub fn extend<V: ParamValue>(&mut self, pairs: Vec<(&str, V)>) -> (ret: &mut Self)
        ensures
            ret@ == old(self)@ + Seq::new(
                pairs@.len(),
                |i: int| (pairs@[i].0@, pairs@[i].1.value_text()),
            ),
            *final(self) == *final(ret),
    {
        let ghost added = Seq::new(pairs@.len(), |i: int| (pairs@[i].0@, pairs@[i].1.value_text()));
        let mut i: usize = 0;
        while i < pairs.len()
            invariant
                i <= pairs@.len(),
                added == Seq::new(pairs@.len(), |i: int| (pairs@[i].0@, pairs@[i].1.value_text())),
                self@ == old(self)@ + added.subrange(0, i as int),
            decreases pairs@.len() - i,
        {
            let k = String::from_str(pairs[i].0);
            let v = pairs[i].1.as_value();
            let ghost before = self@;
            self.params.push((k, v));
            assert(self@ =~= before.push(added[i as int]));
            assert(self@ =~= old(self)@ + added.subrange(0, i + 1));
            i += 1;
        }
        assert(added.subrange(0, i as int) =~= added);
        self
    }

    /// The number of parameters.
    pub fn len(&self) -> (n: usize)
        ensures
            n == self@.len(),
    {
        self.params.len()
    }

    /// The parameter at `index`, as a name and a value.
    pub fn get(&self, index: usize) -> (pair: Option<(&str, &str)>)
        ensures
            match pair {
                Some((k, v)) => index < self@.len() && (k@, v@) == self@[index as int],
                None => index >= self@.len(),
            },
    {
        if index < self.params.len() {
            Some((self.params[index].0.as_str(), self.params[index].1.as_str()))
        } else {
            None
        }
    }

    /// Whether a URL has room for the parameters.
    pub fn fits(&self, url: &url::Url) -> (fits: bool)
        ensures
            fits == (url_size(*url) + pairs_cost(self@) <= url_limit()),
    {
        let size = octet_count(url_as_str(url));
        if size > URL_LIMIT as usize {
            return false;
        }
        let mut total: u64 = size as u64;
        let mut i: usize = 0;
        while i < self.params.len()
            invariant
                i <= self.params@.len(),
                total == url_size(*url) + pairs_cost(self@.subrange(0, i as int)),
                total <= URL_LIMIT,
            decreases self.params@.len() - i,
        {
            proof {
                lemma_pairs_cost_step(self@, i as int);
                lemma_pairs_cost_grows(self@, i + 1);
            }
            let n = octet_count(self.params[i].0.as_str());
            let v = octet_count(self.params[i].1.as_str());
            if n > URL_LIMIT as usize || v > URL_LIMIT as usize {
                return false;
            }
            total = total + 3 * (n as u64 + v as u64) + 2;
            if total > URL_LIMIT {
                return false;
            }
            i += 1;
        }
        assert(self@.subrange(0, i as int) =~= self@);
        true
    }

    /// Add the parameters to a URL, after the pairs it already has.
    pub fn add_to_url(&self, url: &mut url::Url)
        requires
            url_size(*old(url)) + pairs_cost(self@) <= url_limit(),
        ensures
            url_query_pairs(*final(url)) == url_query_pairs(*old(url)) + self@,
            url_resource(*final(url)) == url_resource(*old(url)),
            url_fragment(*final(url)) == url_fragment(*old(url)),
            url_size(*final(url)) <= url_size(*old(url)) + pairs_cost(self@),
    {
        let mut i: usize = 0;
        while i < self.params.len()
            invariant
                i <= self.params@.len(),
                url_query_pairs(*url) == url_query_pairs(*old(url)) + self@.subrange(0, i as int),
                url_resource(*url) == url_resource(*old(url)),
                url_fragment(*url) == url_fragment(*old(url)),
                url_size(*url) <= url_size(*old(url)) + pairs_cost(self@.subrange(0, i as int)),
                url_size(*old(url)) + pairs_cost(self@) <= url_limit(),
            decreases self.params@.len() - i,
        {
            proof {
                lemma_pairs_cost_step(self@, i as int);
                lemma_pairs_cost_grows(self@, i + 1);
            }
            url_append_pair(url, self.params[i].0.as_str(), self.params[i].1.as_str());
            assert(url_query_pairs(*url) =~= url_query_pairs(*old(url)) + self@.subrange(
                0,
                i + 1,
            ));
            i += 1;
        }
        assert(self@.subrange(0, i as int) =~= self@);
    }
}

} // verus!
