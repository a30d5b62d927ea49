use vstd::hash_map::StringHashMap;
use vstd::prelude::*;
use vstd::string::StrSliceExecFns;

verus! {

/// Splits a `key=value` entry at its first `=`; `None` when there is no `=`.
pub open spec fn parse_tag(s: Seq<char>) -> Option<(Seq<char>, Seq<char>)>
    decreases s.len(),
{
    if s.len() == 0 {
        None
    } else if s[0] == '=' {
        Some((Seq::<char>::empty(), s.drop_first()))
    } else {
        match parse_tag(s.drop_first()) {
            Some(kv) => Some((seq![s[0]] + kv.0, kv.1)),
            None => None,
        }
    }
}

/// The mapping built from a list of entries, in order: a later entry replaces an
/// earlier one with the same key, and an entry without `=` adds nothing.
pub open spec fn tag_map(entries: Seq<Seq<char>>) -> Map<Seq<char>, Seq<char>>
    decreases entries.len(),
{
    if entries.len() == 0 {
        Map::empty()
    } else {
        let prev = tag_map(entries.drop_last());
        match parse_tag(entries.last()) {
            Some(kv) => prev.insert(kv.0, kv.1),
            None => prev,
        }
    }
}

/// The text of each string of a list.
pub open spec fn texts(v: Seq<String>) -> Seq<Seq<char>> {
    v.map_values(|s: String| s@)
}

/// The text of each value of a map of strings.
pub open spec fn text_values(m: Map<Seq<char>, String>) -> Map<Seq<char>, Seq<char>> {
    m.map_values(|s: String| s@)
}

/// The tag list that is used: the delimited list when it is given, else the repeated one.
pub open spec fn chosen_tags(tag: Option<Seq<Seq<char>>>, tags: Option<Seq<Seq<char>>>) -> Option<
    Seq<Seq<char>>,
> {
    match tags {
        Some(t) => Some(t),
        None => tag,
    }
}

/// The text of each string of a list, if the list is given.
pub open spec fn opt_texts(v: Option<Vec<String>>) -> Option<Seq<Seq<char>>> {
    match v {
        Some(l) => Some(texts(l@)),
        None => None,
    }
}

proof fn lemma_parse_split(k: Seq<char>, v: Seq<char>)
    requires
        !k.contains('='),
    ensures
        parse_tag(k + seq!['='] + v) == Some((k, v)),
    decreases k.len(),
{
    let s = k + seq!['='] + v;
    if k.len() == 0 {
        assert(s[0] == '=');
        assert(s.drop_first() =~= v);
    } else {
        assert(k[0] != '=') by {
            if k[0] == '=' {
                assert(k.contains('='));
            }
        };
        let k1 = k.drop_first();
        assert(!k1.contains('=')) by {
            if k1.contains('=') {
                let j = choose|j: int| 0 <= j < k1.len() && k1[j] == '=';
                assert(k[j + 1] == '=');
            }
        };
        lemma_parse_split(k1, v);
        assert(s.drop_first() =~= k1 + seq!['='] + v);
        assert(seq![s[0]] + k1 =~= k);
    }
}

proof fn lemma_parse_none(s: Seq<char>)
    requires
        !s.contains('='),
    ensures
        parse_tag(s) is None,
    decreases s.len(),
{
    if s.len() > 0 {
        assert(s[0] != '=') by {
            if s[0] == '=' {
                assert(s.contains('='));
            }
        };
        let s1 = s.drop_first();
        assert(!s1.contains('=')) by {
            if s1.contains('=') {
                let j = choose|j: int| 0 <= j < s1.len() && s1[j] == '=';
                assert(s[j + 1] == '=');
            }
        };
        lemma_parse_none(s1);
    }
}

/// Splits one `key=value` entry at its first `=`.
pub fn split_tag(s: &str) -> (r: Option<(String, String)>)
    ensures
        match r {
            Some(kv) => parse_tag(s@) == Some((kv.0@, kv.1@)),
            None => parse_tag(s@) is None,
        },
{
    let n = s.unicode_len();
    let mut i: usize = 0;
    while i < n
        invariant
            n == s@.len(),
            i <= n,
            forall|j: int| 0 <= j < i ==> s@[j] != '=',
        decreases n - i,
    {
        if s.get_char(i) == '=' {
            let k = s.substring_char(0, i).to_owned();
            let v = s.substring_char(i + 1, n).to_owned();
            proof {
                assert(!k@.contains('=')) by {
                    if k@.contains('=') {
                        let j = choose|j: int| 0 <= j < k@.len() && k@[j] == '=';
                        assert(s@[j] == '=');
                    }
                };
                assert(s@ =~= k@ + seq!['='] + v@);
                lemma_parse_split(k@, v@);
            }
            return Some((k, v));
        }
        i = i + 1;
    }
    proof {
        assert(!s@.contains('=')) by {
            if s@.contains('=') {
                let j = choose|j: int| 0 <= j < s@.len() && s@[j] == '=';
                assert(s@[j] != '=');
            }
        };
        lemma_parse_none(s@);
    }
    None
}

/// A set of tags: each key once, with its value, and the keys in the order they
/// first came.
pub struct TagSet {
    map: StringHashMap<String>,
    keys: Vec<String>,
}

impl View for TagSet {
    type V = Map<Seq<char>, Seq<char>>;

    closed spec fn view(&self) -> Map<Seq<char>, Seq<char>> {
        text_values(self.map@)
    }
}

impl TagSet {
    /// The key list holds each key of the map once, and nothing else.
    pub closed spec fn wf(&self) -> bool {
        &&& forall|i: int| 0 <= i < self.keys@.len() ==> self.map@.contains_key(#[trigger] self.keys@[i]@)
        &&& forall|k: Seq<char>| #[trigger]
            self.map@.contains_key(k) ==> exists|i: int| 0 <= i < self.keys@.len() && self.keys@[i]@ == k
        &&& forall|i: int, j: int|
            0 <= i < j < self.keys@.len() ==> #[trigger] self.keys@[i]@ != #[trigger] self.keys@[j]@
    }

    fn new() -> (r: TagSet)
        ensures
            r.wf(),
            r@ == Map::<Seq<char>, Seq<char>>::empty(),
    {
        let r = TagSet { map: StringHashMap::new(), keys: Vec::new() };
        proof {
            assert(text_values(r.map@) =~= Map::<Seq<char>, Seq<char>>::empty());
        }
        r
    }

    fn insert(&mut self, k: String, v: String)
        requires
            old(self).wf(),
        ensures
            final(self).wf(),
            final(self)@ == old(self)@.insert(k@, v@),
    {
        let fresh = !self.map.contains_key(k.as_str());
        let ghost old_map = self.map@;
        let ghost old_keys = self.keys@;
        if fresh {
            self.keys.push(k.clone());
        }
        self.map.insert(k, v);
        proof {
            assert(text_values(self.map@) =~= text_values(old_map).insert(k@, v@));
            assert forall|q: Seq<char>| #[trigger] self.map@.contains_key(q) implies exists|i: int|
                0 <= i < self.keys@.len() && self.keys@[i]@ == q by {
                if q == k@ {
                    if fresh {
                        assert(self.keys@[old_keys.len() as int]@ == q);
                    } else {
                        assert(old_map.contains_key(q));
                    }
                } else {
                    assert(old_map.contains_key(q));
                    let i = choose|i: int| 0 <= i < old_keys.len() && old_keys[i]@ == q;
                    assert(self.keys@[i]@ == q);
                }
            }
            assert forall|i: int| 0 <= i < self.keys@.len() implies self.map@.contains_key(
                #[trigger] self.keys@[i]@,
            ) by {
                if i < old_keys.len() {
                    assert(old_map.contains_key(old_keys[i]@));
                }
            }
            assert forall|i: int, j: int| 0 <= i < j < self.keys@.len() implies #[trigger] self.keys@[i]@
                != #[trigger] self.keys@[j]@ by {
                if j == old_keys.len() {
                    assert(old_map.contains_key(old_keys[i]@));
                } else {
                    assert(old_keys[i]@ != old_keys[j]@);
                }
            }
        }
    }

    /// The number of tags.
    pub fn len(&self) -> (r: usize)
        requires
            self.wf(),
        ensures
            r == self@.len(),
    {
        proof {
            assert(self@.dom() =~= self.map@.dom());
        }
        self.map.len()
    }

    /// The value of a key, if the set has it.
    pub fn get(&self, k: &str) -> (r: Option<&String>)
        ensures
            match r {
                Some(v) => self@.contains_key(k@) && self@[k@] == v@,
                None => !self@.contains_key(k@),
            },
    {
        self.map.get(k)
    }

    /// The keys, each once, in the order they first came.
    pub fn keys(&self) -> (r: &Vec<String>)
        requires
            self.wf(),
        ensures
            forall|i: int| 0 <= i < r@.len() ==> self@.contains_key(#[trigger] r@[i]@),
            forall|k: Seq<char>| #[trigger]
                self@.contains_key(k) ==> exists|i: int| 0 <= i < r@.len() && r@[i]@ == k,
            forall|i: int, j: int| 0 <= i < j < r@.len() ==> #[trigger] r@[i]@ != #[trigger] r@[j]@,
    {
        &self.keys
    }
}

/// Builds the tag mapping from `key=value` entries; entries without `=` are dropped.
pub fn extract_tags(tags: &Vec<String>) -> (r: TagSet)
    ensures
        r.wf(),
        r@ == tag_map(texts(tags@)),
{
    let mut map = TagSet::new();
    let mut i: usize = 0;
    while i < tags.len()
        invariant
            i <= tags@.len(),
            map.wf(),
            map@ == tag_map(texts(tags@.subrange(0, i as int))),
        decreases tags@.len() - i,
    {
        let entry = &tags[i];
        let parsed = split_tag(entry.as_str());
        proof {
            let pre = texts(tags@.subrange(0, i as int));
            let post = texts(tags@.subrange(0, i + 1));
            assert(post.drop_last() =~= pre);
            assert(post.last() == entry@);
        }
        match parsed {
            Some(kv) => {
                let (k, v) = kv;
                map.insert(k, v);
            },
            None => {},
        }
        i = i + 1;
    }
    proof {
        assert(tags@.subrange(0, i as int) =~= tags@);
    }
    map
}

/// The tags to apply: those of the delimited list when it is given (even empty),
/// else those of the repeated option, else none.
pub fn resolve_tags(tag: &Option<Vec<String>>, tags: &Option<Vec<String>>) -> (r: Option<TagSet>)
    ensures
        match chosen_tags(opt_texts(*tag), opt_texts(*tags)) {
            Some(l) => r is Some && r->0.wf() && r->0@ == tag_map(l),
            None => r is None,
        },
{
    match tags {
        Some(list) => Some(extract_tags(list)),
        None => match tag {
            Some(list) => Some(extract_tags(list)),
            None => None,
        },
    }
}

/// The delimited list, when given, decides the tags alone, whatever the repeated
/// option holds; and an entry without `=` is dropped without changing the others.
pub proof fn lemma_delimited_list_wins(
    tag: Option<Seq<Seq<char>>>,
    tags: Seq<Seq<char>>,
    malformed: Seq<char>,
)
    requires
        !malformed.contains('='),
    ensures
        chosen_tags(tag, Some(tags)) == Some(tags),
        tag_map(tags.push(malformed)) == tag_map(tags),
{
    lemma_parse_none(malformed);
    assert(tags.push(malformed).drop_last() =~= tags);
}

} // verus!
