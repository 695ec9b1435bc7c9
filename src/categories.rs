use vstd::prelude::*;

verus! {

/// A directory entry names a category when its file name holds no `.`.
pub open spec fn names_category(name: Seq<char>) -> bool {
    !name.contains('.')
}

/// The categories listed by a directory whose entry names are `entries`.
pub open spec fn category_set(entries: Seq<Seq<char>>) -> Set<Seq<char>> {
    Set::new(|n: Seq<char>| entries.contains(n) && names_category(n))
}

/// The names held by a sequence of strings.
pub open spec fn name_views(v: Seq<String>) -> Seq<Seq<char>> {
    v.map_values(|s: String| s@)
}

proof fn lemma_push_contains(s: Seq<Seq<char>>, x: Seq<char>, n: Seq<char>)
    ensures
        s.push(x).contains(n) <==> (s.contains(n) || n == x),
{
    if s.contains(n) {
        let j = choose|j: int| 0 <= j < s.len() && s[j] == n;
        assert(s.push(x)[j] == n);
    }
    if n == x {
        assert(s.push(x)[s.len() as int] == n);
    }
    if s.push(x).contains(n) {
        let j = choose|j: int| 0 <= j < s.len() + 1 && s.push(x)[j] == n;
        if j < s.len() {
            assert(s[j] == n);
        }
    }
}

/// True when `name` can stand for a category: it holds no `.`.
pub fn is_category_name(name: &str) -> (r: bool)
    ensures
        r == names_category(name@),
{
    let n = name.unicode_len();
    let mut i: usize = 0;
    while i < n
        invariant
            n == name@.len(),
            i <= n,
            forall|k: int| 0 <= k < i ==> name@[k] != '.',
        decreases n - i,
    {
        if name.get_char(i) == '.' {
            assert(name@[i as int] == '.');
            return false;
        }
        i = i + 1;
    }
    assert(!name@.contains('.')) by {
        if name@.contains('.') {
            let k = choose|k: int| 0 <= k < name@.len() && name@[k] == '.';
            assert(name@[k] != '.');
        }
    }
    true
}

/// True when `names` holds a string equal to `name`.
fn holds_name(names: &Vec<String>, name: &String) -> (r: bool)
    ensures
        r == name_views(names@).contains(name@),
{
    let mut i: usize = 0;
    while i < names.len()
        invariant
            i <= names@.len(),
            forall|k: int| 0 <= k < i ==> names@[k]@ != name@,
        decreases names@.len() - i,
    {
        if names[i] == *name {
            assert(name_views(names@)[i as int] == name@);
            return true;
        }
        i = i + 1;
    }
    assert(!name_views(names@).contains(name@)) by {
        if name_views(names@).contains(name@) {
            let k = choose|k: int| 0 <= k < names@.len() && name_views(names@)[k] == name@;
            assert(names@[k]@ == name@);
        }
    }
    false
}

/// The set of categories found in the fortune directory. It is built once
/// from the directory's entry names and only read afterwards.
pub struct CategoryIndex {
    names: Vec<String>,
}

impl View for CategoryIndex {
    type V = Set<Seq<char>>;

    closed spec fn view(&self) -> Set<Seq<char>> {
        name_views(self.names@).to_set()
    }
}

impl CategoryIndex {
    /// Every name held is a category name, and each is held once.
    #[verifier::type_invariant]
    closed spec fn wf(&self) -> bool {
        &&& forall|i: int| 0 <= i < self.names@.len() ==> names_category(#[trigger] self.names@[i]@)
        &&& name_views(self.names@).no_duplicates()
    }

    /// Keeps, out of the directory's entry names, those that name a category.
    pub fn from_entries(entries: Vec<String>) -> (r: CategoryIndex)
        ensures
            r@ == category_set(name_views(entries@)),
    {
        let mut names: Vec<String> = Vec::new();
        let mut i: usize = 0;
        while i < entries.len()
            invariant
                i <= entries@.len(),
                forall|k: int| 0 <= k < names@.len() ==> names_category(#[trigger] names@[k]@),
                name_views(names@).no_duplicates(),
                name_views(names@).to_set() == category_set(name_views(entries@.subrange(0, i as int))),
            decreases entries@.len() - i,
        {
            let entry = &entries[i];
            let keep = is_category_name(entry.as_str()) && !holds_name(&names, entry);
            let ghost before = names@;
            if keep {
                names.push(entry.clone());
            }
            proof {
                let prev = name_views(entries@.subrange(0, i as int));
                let next = name_views(entries@.subrange(0, i + 1));
                let e = entries@[i as int]@;
                assert(next =~= prev.push(e));
                if keep {
                    assert(name_views(names@) =~= name_views(before).push(e));
                    assert(name_views(names@).no_duplicates()) by {
                        assert forall|x: int, y: int|
                            0 <= x < y < name_views(names@).len() implies name_views(names@)[x]
                            != name_views(names@)[y] by {
                            if y == name_views(before).len() {
                                assert(name_views(before)[x] == name_views(names@)[x]);
                            }
                        }
                    }
                } else {
                    assert(name_views(names@) =~= name_views(before));
                }
                assert forall|n: Seq<char>| name_views(names@).to_set().contains(n)
                    <==> #[trigger] category_set(next).contains(n) by {
                    lemma_push_contains(prev, e, n);
                    lemma_push_contains(name_views(before), e, n);
                    assert(name_views(before).to_set().contains(n) == name_views(before).contains(n));
                    assert(category_set(prev).contains(n) == (prev.contains(n) && names_category(n)));
                }
                assert(name_views(names@).to_set() =~= category_set(next));
            }
            i = i + 1;
        }
        assert(entries@.subrange(0, entries@.len() as int) == entries@);
        CategoryIndex { names }
    }

    /// The category names, each held once.
    pub fn names(&self) -> (r: &Vec<String>)
        ensures
            name_views(r@).to_set() == self@,
            name_views(r@).no_duplicates(),
            forall|i: int| 0 <= i < r@.len() ==> names_category(#[trigger] r@[i]@),
    {
        proof {
            use_type_invariant(self);
        }
        &self.names
    }
}

} // verus!
