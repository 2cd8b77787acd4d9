use vstd::prelude::*;

verus! {

broadcast use vstd::std_specs::vec::axiom_vec_index_decreases;

/// A YAML document node, as the configuration logic sees it.
pub enum Yaml {
    Null,
    Bool(bool),
    /// A number, kept in its canonical textual form.
    Number(String),
    Str(String),
    Sequence(Vec<Yaml>),
    /// A mapping: its entries in document order.
    Mapping(Vec<(Yaml, Yaml)>),
    Tagged(String, Box<Yaml>),
}

/// The mathematical value of a YAML node.
pub enum YamlV {
    Null,
    Bool(bool),
    Number(Seq<char>),
    Str(Seq<char>),
    Sequence(Seq<YamlV>),
    Mapping(Seq<(YamlV, YamlV)>),
    Tagged(Seq<char>, Box<YamlV>),
}

impl Yaml {
    pub open spec fn view(&self) -> YamlV
        decreases self,
    {
        match self {
            Yaml::Null => YamlV::Null,
            Yaml::Bool(b) => YamlV::Bool(*b),
            Yaml::Number(n) => YamlV::Number(n@),
            Yaml::Str(s) => YamlV::Str(s@),
            Yaml::Sequence(v) => YamlV::Sequence(Yaml::view_list(v@)),
            Yaml::Mapping(v) => YamlV::Mapping(Yaml::view_entries(v@)),
            Yaml::Tagged(t, b) => YamlV::Tagged(t@, Box::new((**b).view())),
        }
    }

    pub open spec fn view_list(s: Seq<Yaml>) -> Seq<YamlV>
        decreases s,
    {
        if s.len() == 0 {
            Seq::empty()
        } else {
            Yaml::view_list(s.drop_last()).push(s.last().view())
        }
    }

    pub open spec fn view_entries(s: Seq<(Yaml, Yaml)>) -> Seq<(YamlV, YamlV)>
        decreases s,
    {
        if s.len() == 0 {
            Seq::empty()
        } else {
            Yaml::view_entries(s.drop_last()).push((s.last().0.view(), s.last().1.view()))
        }
    }
}


/// Properties of the view of a sequence of nodes.
pub proof fn lemma_view_list(s: Seq<Yaml>)
    ensures
        Yaml::view_list(s).len() == s.len(),
        forall|i: int| 0 <= i < s.len() ==> #[trigger] Yaml::view_list(s)[i] == s[i]@,
    decreases s.len(),
{
    if s.len() > 0 {
        lemma_view_list(s.drop_last());
    }
}

/// Properties of the view of a sequence of mapping entries.
pub proof fn lemma_view_entries(s: Seq<(Yaml, Yaml)>)
    ensures
        Yaml::view_entries(s).len() == s.len(),
        forall|i: int|
            0 <= i < s.len() ==> #[trigger] Yaml::view_entries(s)[i] == (s[i].0@, s[i].1@),
    decreases s.len(),
{
    if s.len() > 0 {
        lemma_view_entries(s.drop_last());
    }
}

/// Two entry sequences have equal views when they agree entry by entry.
pub proof fn lemma_view_entries_ext(s: Seq<(Yaml, Yaml)>, t: Seq<(YamlV, YamlV)>)
    requires
        s.len() == t.len(),
        forall|i: int| 0 <= i < s.len() ==> (s[i].0@, s[i].1@) == #[trigger] t[i],
    ensures
        Yaml::view_entries(s) == t,
{
    lemma_view_entries(s);
    assert(Yaml::view_entries(s) =~= t);
}

/// Two node sequences have equal views when they agree node by node.
pub proof fn lemma_view_list_ext(s: Seq<Yaml>, t: Seq<YamlV>)
    requires
        s.len() == t.len(),
        forall|i: int| 0 <= i < s.len() ==> s[i]@ == #[trigger] t[i],
    ensures
        Yaml::view_list(s) == t,
{
    lemma_view_list(s);
    assert(Yaml::view_list(s) =~= t);
}

/// Whether two strings hold the same characters.
pub fn string_eq(a: &String, b: &String) -> (r: bool)
    ensures
        r == (a@ == b@),
{
    a.eq(b)
}

impl Yaml {
    /// Whether two nodes denote the same value.
    #[verifier::loop_isolation(false)]
    pub fn same_as(&self, other: &Yaml) -> (r: bool)
        ensures
            r == (self@ == other@),
        decreases self,
    {
        match (self, other) {
            (Yaml::Null, Yaml::Null) => true,
            (Yaml::Bool(a), Yaml::Bool(b)) => *a == *b,
            (Yaml::Number(a), Yaml::Number(b)) => string_eq(a, b),
            (Yaml::Str(a), Yaml::Str(b)) => string_eq(a, b),
            (Yaml::Sequence(a), Yaml::Sequence(b)) => {
                proof {
                    lemma_view_list(a@);
                    lemma_view_list(b@);
                }
                if a.len() != b.len() {
                    return false;
                }
                let n = a.len();
                let mut i: usize = 0;
                while i < n
                    invariant
                        n == a.len(),
                        n == b.len(),
                        i <= n,
                        forall|j: int| 0 <= j < i ==> a@[j]@ == b@[j]@,
                    decreases n - i,
                {
                    if !a[i].same_as(&b[i]) {
                        assert(Yaml::view_list(a@)[i as int] != Yaml::view_list(b@)[i as int]);
                        return false;
                    }
                    i = i + 1;
                }
                assert(Yaml::view_list(a@) =~= Yaml::view_list(b@));
                true
            },
            (Yaml::Mapping(a), Yaml::Mapping(b)) => {
                proof {
                    lemma_view_entries(a@);
                    lemma_view_entries(b@);
                }
                if a.len() != b.len() {
                    return false;
                }
                let n = a.len();
                let mut i: usize = 0;
                while i < n
                    invariant
                        n == a.len(),
                        n == b.len(),
                        i <= n,
                        forall|j: int| 0 <= j < i ==> a@[j].0@ == b@[j].0@ && a@[j].1@ == b@[j].1@,
                    decreases n - i,
                {
                    if !a[i].0.same_as(&b[i].0) || !a[i].1.same_as(&b[i].1) {
                        assert(Yaml::view_entries(a@)[i as int] != Yaml::view_entries(b@)[i as int]);
                        return false;
                    }
                    i = i + 1;
                }
                assert(Yaml::view_entries(a@) =~= Yaml::view_entries(b@));
                true
            },
            (Yaml::Tagged(t1, a), Yaml::Tagged(t2, b)) => {
                string_eq(t1, t2) && (**a).same_as(&**b)
            },
            _ => false,
        }
    }

    /// A copy of this node with the same value.
    #[verifier::loop_isolation(false)]
    pub fn duplicate(&self) -> (r: Yaml)
        ensures
            r@ == self@,
        decreases self,
    {
        match self {
            Yaml::Null => Yaml::Null,
            Yaml::Bool(b) => Yaml::Bool(*b),
            Yaml::Number(n) => Yaml::Number(n.clone()),
            Yaml::Str(s) => Yaml::Str(s.clone()),
            Yaml::Sequence(a) => {
                let mut out: Vec<Yaml> = Vec::new();
                let n = a.len();
                let mut i: usize = 0;
                while i < n
                    invariant
                        n == a.len(),
                        i <= n,
                        out@.len() == i,
                        forall|j: int| 0 <= j < i ==> out@[j]@ == a@[j]@,
                    decreases n - i,
                {
                    out.push(a[i].duplicate());
                    i = i + 1;
                }
                proof {
                    lemma_view_list(a@);
                    lemma_view_list_ext(out@, Yaml::view_list(a@));
                }
                Yaml::Sequence(out)
            },
            Yaml::Mapping(a) => Yaml::Mapping(clone_entries(a)),
            Yaml::Tagged(t, b) => Yaml::Tagged(t.clone(), Box::new((**b).duplicate())),
        }
    }
}


/// A copy of mapping entries with the same values.
#[verifier::loop_isolation(false)]
pub fn clone_entries(a: &Vec<(Yaml, Yaml)>) -> (r: Vec<(Yaml, Yaml)>)
    ensures
        Yaml::view_entries(r@) == Yaml::view_entries(a@),
    decreases a,
{
    let mut out: Vec<(Yaml, Yaml)> = Vec::new();
    let n = a.len();
    let mut i: usize = 0;
    while i < n
        invariant
            n == a.len(),
            i <= n,
            out@.len() == i,
            forall|j: int| 0 <= j < i ==> out@[j].0@ == a@[j].0@ && out@[j].1@ == a@[j].1@,
        decreases n - i,
    {
        out.push((a[i].0.duplicate(), a[i].1.duplicate()));
        i = i + 1;
    }
    proof {
        lemma_view_entries(a@);
        lemma_view_entries_ext(out@, Yaml::view_entries(a@));
    }
    out
}

} // verus!
