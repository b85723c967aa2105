//! The fixed label sets of one container worker, derived once from the
//! container's identity and immutable for the worker's lifetime.

use vstd::prelude::*;
use vstd::string::StringExecFns;
use crate::identity::{ContainerIdentity, ContainerIdentityModel};

verus! {

/// One metric label: a key/value pair.
#[derive(Debug)]
pub struct Label {
    pub key: String,
    pub value: String,
}

impl Clone for Label {
    fn clone(&self) -> (r: Self)
        ensures
            r == *self,
    {
        Label { key: self.key.clone(), value: self.value.clone() }
    }
}

/// Mathematical model of a [`Label`].
pub ghost struct LabelModel {
    pub key: Seq<char>,
    pub value: Seq<char>,
}

impl View for Label {
    type V = LabelModel;

    open spec fn view(&self) -> LabelModel {
        LabelModel { key: self.key@, value: self.value@ }
    }
}

impl DeepView for Label {
    type V = LabelModel;

    open spec fn deep_view(&self) -> LabelModel {
        self.view()
    }
}

/// Why a worker could not be built from a listing entry.
#[derive(Clone, Copy, Debug, PartialEq, Eq, Structural)]
pub enum StartError {
    /// Neither an image name nor an image id was present: the identity
    /// cannot be labelled, a worker-fatal startup condition.
    MissingImage,
}

/// The label sets a worker attaches to its records: the shared base set and
/// the four derived memory-failure sets.
#[derive(Debug)]
pub struct LabelSets {
    /// `id`, `image`, optional `name`, then one namespaced entry per
    /// container metadata label.
    pub base: Vec<Label>,
    /// Base plus `failure_type=pgfault, scope=container`.
    pub mem_minor_container: Vec<Label>,
    /// Base plus `failure_type=pgfault, scope=hierarchy`.
    pub mem_minor_hierarchy: Vec<Label>,
    /// Base plus `failure_type=pgmajfault, scope=container`.
    pub mem_major_container: Vec<Label>,
    /// Base plus `failure_type=pgmajfault, scope=hierarchy`.
    pub mem_major_hierarchy: Vec<Label>,
}

/// Mathematical model of a [`LabelSets`].
pub ghost struct LabelSetsModel {
    pub base: Seq<LabelModel>,
    pub mem_minor_container: Seq<LabelModel>,
    pub mem_minor_hierarchy: Seq<LabelModel>,
    pub mem_major_container: Seq<LabelModel>,
    pub mem_major_hierarchy: Seq<LabelModel>,
}

impl View for LabelSets {
    type V = LabelSetsModel;

    open spec fn view(&self) -> LabelSetsModel {
        LabelSetsModel {
            base: self.base.deep_view(),
            mem_minor_container: self.mem_minor_container.deep_view(),
            mem_minor_hierarchy: self.mem_minor_hierarchy.deep_view(),
            mem_major_container: self.mem_major_container.deep_view(),
            mem_major_hierarchy: self.mem_major_hierarchy.deep_view(),
        }
    }
}

/// A string with every leading path separator removed.
pub open spec fn spec_strip_leading_slashes(s: Seq<char>) -> Seq<char>
    decreases s.len(),
{
    if s.len() > 0 && s[0] == '/' {
        spec_strip_leading_slashes(s.drop_first())
    } else {
        s
    }
}

/// The value of the `name` label, when one resolves: the first
/// runtime-assigned name, stripped of leading path separators. A missing or
/// empty name list resolves to no name.
pub open spec fn spec_name_label(names: Option<Seq<Seq<char>>>) -> Option<Seq<char>> {
    match names {
        None => None,
        Some(ns) => if ns.len() == 0 {
            None
        } else {
            Some(spec_strip_leading_slashes(ns[0]))
        },
    }
}

/// The value of the `image` label: the image name, or the image id when the
/// name is absent; `None` when both are absent.
pub open spec fn spec_image_label(c: ContainerIdentityModel) -> Option<Seq<char>> {
    if c.image is Some {
        c.image
    } else {
        c.image_id
    }
}

/// The namespaced label entries derived from the container metadata labels.
pub open spec fn spec_meta_labels(
    labels: Option<Seq<(Seq<char>, Seq<char>)>>,
) -> Seq<LabelModel> {
    match labels {
        None => Seq::empty(),
        Some(ps) => ps.map_values(
            |p: (Seq<char>, Seq<char>)|
                LabelModel { key: "container_label_"@ + p.0, value: p.1 },
        ),
    }
}

/// The worker's base label set: `id` and `image` always, `name` when one
/// resolves, then the namespaced metadata labels.
pub open spec fn spec_base_labels(c: ContainerIdentityModel) -> Seq<LabelModel> {
    seq![
        LabelModel { key: "id"@, value: c.id->Some_0 },
        LabelModel { key: "image"@, value: spec_image_label(c)->Some_0 },
    ] + (match spec_name_label(c.names) {
        Some(n) => seq![LabelModel { key: "name"@, value: n }],
        None => Seq::empty(),
    }) + spec_meta_labels(c.labels)
}

/// All five label sets of a worker for the given identity.
pub open spec fn spec_label_sets(c: ContainerIdentityModel) -> LabelSetsModel {
    let base = spec_base_labels(c);
    let minor = base.push(LabelModel { key: "failure_type"@, value: "pgfault"@ });
    let major = base.push(LabelModel { key: "failure_type"@, value: "pgmajfault"@ });
    LabelSetsModel {
        base,
        mem_minor_container: minor.push(LabelModel { key: "scope"@, value: "container"@ }),
        mem_minor_hierarchy: minor.push(LabelModel { key: "scope"@, value: "hierarchy"@ }),
        mem_major_container: major.push(LabelModel { key: "scope"@, value: "container"@ }),
        mem_major_hierarchy: major.push(LabelModel { key: "scope"@, value: "hierarchy"@ }),
    }
}

/// Removes every leading `/` from a runtime-assigned container name.
fn strip_leading_slashes(s: &str) -> (r: String)
    ensures
        r@ == spec_strip_leading_slashes(s@),
{
    let chars = crate::strutil::str_chars(s);
    let mut start: usize = 0;
    proof {
        assert(s@.skip(0) =~= s@);
    }
    while start < chars.len() && chars[start] == '/'
        invariant
            start <= chars.len(),
            chars@ == s@,
            spec_strip_leading_slashes(s@) == spec_strip_leading_slashes(s@.skip(start as int)),
            forall|j: int| 0 <= j < start ==> s@[j] == '/',
        decreases chars.len() - start,
    {
        proof {
            assert(s@.skip(start as int).drop_first() =~= s@.skip(start + 1));
        }
        start = start + 1;
    }
    let mut out: Vec<char> = Vec::new();
    let mut i: usize = start;
    while i < chars.len()
        invariant
            start <= i <= chars.len(),
            chars@ == s@,
            out@ =~= s@.subrange(start as int, i as int),
        decreases chars.len() - i,
    {
        out.push(chars[i]);
        i = i + 1;
    }
    proof {
        if start < chars.len() {
            assert(s@.skip(start as int)[0] == s@[start as int]);
        }
        assert(spec_strip_leading_slashes(s@.skip(start as int)) == s@.skip(start as int));
        assert(out@ =~= s@.skip(start as int));
    }
    crate::strutil::chars_to_string(&out)
}

/// Copies a label vector.
pub fn clone_labels(labels: &Vec<Label>) -> (r: Vec<Label>)
    ensures
        r.deep_view() == labels.deep_view(),
        r@ == labels@,
{
    let mut out: Vec<Label> = Vec::new();
    let mut i: usize = 0;
    while i < labels.len()
        invariant
            i <= labels.len(),
            out@ =~= labels@.take(i as int),
        decreases labels.len() - i,
    {
        out.push(labels[i].clone());
        i = i + 1;
    }
    proof {
        assert(out@ =~= labels@);
        assert(out.deep_view() =~= labels.deep_view());
    }
    out
}

/// Builds the five fixed label sets for a container identity. Fails exactly
/// when neither an image name nor an image id is present; every other
/// identity yields the sets of [`spec_label_sets`].
pub fn build_label_sets(c: &ContainerIdentity) -> (r: Result<LabelSets, StartError>)
    requires
        c@.id is Some,
    ensures
        match r {
            Ok(ls) => (c@.image is Some || c@.image_id is Some) && ls@ == spec_label_sets(c@),
            Err(e) => e == StartError::MissingImage && c@.image is None && c@.image_id is None,
        },
{
    let id = match &c.id {
        Some(s) => s.clone(),
        None => { return Err(StartError::MissingImage); },
    };
    let image = match &c.image {
        Some(s) => s.clone(),
        None => match &c.image_id {
            Some(s) => s.clone(),
            None => { return Err(StartError::MissingImage); },
        },
    };

    let mut base: Vec<Label> = Vec::new();
    base.push(Label { key: String::from_str("id"), value: id });
    base.push(Label { key: String::from_str("image"), value: image });

    let name: Option<String> = match &c.names {
        None => None,
        Some(ns) => if ns.len() == 0 {
            None
        } else {
            Some(strip_leading_slashes(ns[0].as_str()))
        },
    };
    if let Some(n) = name {
        base.push(Label { key: String::from_str("name"), value: n });
    }

    let ghost head = base.deep_view();

    if let Some(pairs) = &c.labels {
        let mut i: usize = 0;
        while i < pairs.len()
            invariant
                i <= pairs.len(),
                base.deep_view() =~= head + spec_meta_labels(Some(pairs.deep_view())).take(
                    i as int,
                ),
            decreases pairs.len() - i,
        {
            let ghost before = base.deep_view();
            let mut key = String::from_str("container_label_");
            key.append(pairs[i].0.as_str());
            let entry = Label { key, value: pairs[i].1.clone() };
            proof {
                let ghost ps = pairs.deep_view();
                let ghost metas = spec_meta_labels(Some(ps));
                assert(ps[i as int] == (pairs@[i as int].0@, pairs@[i as int].1@));
                assert(entry.deep_view() == metas[i as int]);
            }
            base.push(entry);
            proof {
                let ghost metas = spec_meta_labels(Some(pairs.deep_view()));
                assert(base.deep_view() =~= before.push(metas[i as int]));
                assert(metas.take(i + 1) =~= metas.take(i as int).push(metas[i as int]));
            }
            i = i + 1;
        }
        proof {
            let ghost metas = spec_meta_labels(Some(pairs.deep_view()));
            assert(metas.take(pairs.len() as int) =~= metas);
        }
    }
    proof {
        assert(base.deep_view() =~= spec_base_labels(c@));
    }

    let mut minor_container = clone_labels(&base);
    minor_container.push(
        Label { key: String::from_str("failure_type"), value: String::from_str("pgfault") },
    );
    let mut minor_hierarchy = clone_labels(&minor_container);
    minor_hierarchy.push(
        Label { key: String::from_str("scope"), value: String::from_str("hierarchy") },
    );
    minor_container.push(
        Label { key: String::from_str("scope"), value: String::from_str("container") },
    );

    let mut major_container = clone_labels(&base);
    major_container.push(
        Label { key: String::from_str("failure_type"), value: String::from_str("pgmajfault") },
    );
    let mut major_hierarchy = clone_labels(&major_container);
    major_hierarchy.push(
        Label { key: String::from_str("scope"), value: String::from_str("hierarchy") },
    );
    major_container.push(
        Label { key: String::from_str("scope"), value: String::from_str("container") },
    );

    let ls = LabelSets {
        base,
        mem_minor_container: minor_container,
        mem_minor_hierarchy: minor_hierarchy,
        mem_major_container: major_container,
        mem_major_hierarchy: major_hierarchy,
    };
    proof {
        assert(ls@.mem_minor_container =~= spec_label_sets(c@).mem_minor_container);
        assert(ls@.mem_minor_hierarchy =~= spec_label_sets(c@).mem_minor_hierarchy);
        assert(ls@.mem_major_container =~= spec_label_sets(c@).mem_major_container);
        assert(ls@.mem_major_hierarchy =~= spec_label_sets(c@).mem_major_hierarchy);
    }
    Ok(ls)
}

} // verus!
