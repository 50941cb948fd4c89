use vstd::prelude::*;

verus! {

/// A filesystem path held as plain data: whether it is absolute, and its
/// components in order. Code that works with operating-system paths converts
/// to and from this form at the boundary, so that everything the packaging
/// logic decides about a path is decided on these components alone.
pub struct AppPath {
    pub absolute: bool,
    pub parts: Vec<String>,
}

/// The components of `path` relative to a base path given as its
/// absoluteness and components: the leftover components when the base is a
/// prefix of `path` and both are absolute or both relative. `None` when
/// `path` cannot be expressed relative to the base.
pub open spec fn rel_parts_spec(path: AppPath, base_abs: bool, base_parts: Seq<Seq<char>>) -> Option<
    Seq<Seq<char>>,
> {
    if path.absolute == base_abs && base_parts.is_prefix_of(path.parts.deep_view()) {
        Some(path.parts.deep_view().skip(base_parts.len() as int))
    } else {
        None
    }
}

/// A well-formed path component, as a filesystem walk yields them:
/// nonempty, free of separators and of NUL, and not a dot entry.
pub open spec fn wf_component(c: Seq<char>) -> bool {
    c.len() > 0 && !c.contains('/') && !c.contains('\u{0}') && c != "."@ && c != ".."@
}

pub open spec fn wf_parts(parts: Seq<Seq<char>>) -> bool {
    forall|i: int| 0 <= i < parts.len() ==> wf_component(#[trigger] parts[i])
}

/// Components joined into one string with `/` between them.
pub open spec fn joined_spec(parts: Seq<Seq<char>>) -> Seq<char>
    decreases parts.len(),
{
    if parts.len() == 0 {
        Seq::empty()
    } else if parts.len() == 1 {
        parts[0]
    } else {
        joined_spec(parts.drop_last()) + seq!['/'] + parts.last()
    }
}

impl AppPath {
    /// The components as a sequence of character sequences.
    pub open spec fn parts_view(&self) -> Seq<Seq<char>> {
        self.parts.deep_view()
    }

    pub fn from_parts(absolute: bool, parts: Vec<String>) -> (r: AppPath)
        ensures
            r.absolute == absolute,
            r.parts == parts,
    {
        AppPath { absolute, parts }
    }

    /// The path extended by one component.
    pub fn join(&self, part: &str) -> (r: AppPath)
        ensures
            r.absolute == self.absolute,
            r.parts_view() == self.parts_view().push(part@),
    {
        let mut parts = clone_parts(&self.parts);
        parts.push(part.to_owned());
        let r = AppPath { absolute: self.absolute, parts };
        proof {
            assert(r.parts_view() =~= self.parts_view().push(part@));
        }
        r
    }

    /// The components of `self` relative to `base`, per `rel_parts_spec`.
    pub fn relative_to(&self, base: &AppPath) -> (r: Option<Vec<String>>)
        ensures
            r is Some <==> rel_parts_spec(*self, base.absolute, base.parts_view()) is Some,
            r matches Some(rel) ==> Some(rel.deep_view()) == rel_parts_spec(
                *self,
                base.absolute,
                base.parts_view(),
            ),
    {
        if self.absolute != base.absolute {
            return None;
        }
        if base.parts.len() > self.parts.len() {
            proof {
                assert(!base.parts_view().is_prefix_of(self.parts_view()));
            }
            return None;
        }
        let mut i: usize = 0;
        while i < base.parts.len()
            invariant
                i <= base.parts_view().len() <= self.parts_view().len(),
                self.absolute == base.absolute,
                forall|j: int| 0 <= j < i ==> base.parts_view()[j] == self.parts_view()[j],
            decreases base.parts_view().len() - i,
        {
            if !(self.parts[i] == base.parts[i]) {
                proof {
                    assert(base.parts_view()[i as int] != self.parts_view().subrange(
                        0,
                        base.parts_view().len() as int,
                    )[i as int]);
                    assert(!base.parts_view().is_prefix_of(self.parts_view()));
                }
                return None;
            }
            i += 1;
        }
        proof {
            assert(base.parts_view() =~= self.parts_view().subrange(
                0,
                base.parts_view().len() as int,
            ));
        }
        let mut rel: Vec<String> = Vec::new();
        let mut k: usize = base.parts.len();
        while k < self.parts.len()
            invariant
                base.parts@.len() <= k <= self.parts@.len(),
                rel@.len() == k - base.parts@.len(),
                forall|j: int|
                    0 <= j < rel@.len() ==> rel@[j]@ == self.parts@[base.parts@.len() + j]@,
            decreases self.parts@.len() - k,
        {
            rel.push(clone_string(&self.parts[k]));
            k += 1;
        }
        proof {
            assert forall|j: int| 0 <= j < rel@.len() implies rel.deep_view()[j]
                == self.parts_view().skip(base.parts@.len() as int)[j] by {
                assert(rel.deep_view()[j] == rel@[j]@);
                assert(self.parts_view().skip(base.parts@.len() as int)[j] == self.parts@[
                    base.parts@.len() + j
                ]@);
            }
            assert(rel.deep_view() =~= self.parts_view().skip(base.parts_view().len() as int));
        }
        Some(rel)
    }
}

/// The destination of the staging copy of an app: the app's own directory,
/// named by its identifier, one level inside the staging root.
pub fn tmp_app_path(base: &AppPath, app_id: &str) -> (r: AppPath)
    ensures
        r.absolute == base.absolute,
        r.parts_view() == base.parts_view().push(app_id@),
{
    base.join(app_id)
}

/// The path extended by several components.
pub fn join_all(base: &AppPath, parts: &Vec<String>) -> (r: AppPath)
    ensures
        r.absolute == base.absolute,
        r.parts_view() == base.parts_view() + parts.deep_view(),
{
    let mut out = clone_parts(&base.parts);
    let mut i: usize = 0;
    while i < parts.len()
        invariant
            i <= parts@.len(),
            out@.len() == base.parts@.len() + i,
            forall|j: int| 0 <= j < base.parts@.len() ==> out@[j] == base.parts@[j],
            forall|j: int| 0 <= j < i ==> out@[base.parts@.len() + j]@ == parts@[j]@,
        decreases parts@.len() - i,
    {
        out.push(clone_string(&parts[i]));
        i += 1;
    }
    let r = AppPath { absolute: base.absolute, parts: out };
    proof {
        assert forall|j: int| 0 <= j < r.parts_view().len() implies r.parts_view()[j] == (
        base.parts_view() + parts.deep_view())[j] by {
            assert(r.parts_view()[j] == out@[j]@);
            if j >= base.parts@.len() {
                assert(out@[j]@ == parts@[j - base.parts@.len()]@);
            }
        }
        assert(r.parts_view() =~= base.parts_view() + parts.deep_view());
    }
    r
}

pub fn clone_string(s: &String) -> (r: String)
    ensures
        r == s,
{
    s.clone()
}

pub fn clone_parts(parts: &Vec<String>) -> (r: Vec<String>)
    ensures
        r@ == parts@,
{
    let r = parts.clone();
    proof {
        assert forall|i: int| 0 <= i < parts@.len() implies r@[i] == parts@[i] by {
            assert(cloned::<String>(parts@[i], r@[i]));
        }
        assert(r@ =~= parts@);
    }
    r
}

/// Components joined into one string with `/` between them, per `joined_spec`.
pub fn join_components(parts: &Vec<String>) -> (r: String)
    ensures
        r@ == joined_spec(parts.deep_view()),
{
    let mut r = String::new();
    let mut i: usize = 0;
    while i < parts.len()
        invariant
            i <= parts.deep_view().len(),
            r@ == joined_spec(parts.deep_view().take(i as int)),
        decreases parts.deep_view().len() - i,
    {
        if i > 0 {
            r.append("/");
        }
        r.append(parts[i].as_str());
        proof {
            reveal_strlit("/");
            let taken = parts.deep_view().take(i as int + 1);
            assert(taken.drop_last() =~= parts.deep_view().take(i as int));
            assert(taken.last() == parts.deep_view()[i as int]);
            if i == 0 {
                assert(r@ =~= joined_spec(taken));
            } else {
                assert(r@ =~= joined_spec(taken));
            }
        }
        i += 1;
    }
    proof {
        assert(parts.deep_view().take(parts.deep_view().len() as int) =~= parts.deep_view());
    }
    r
}

} // verus!
