//! What one "list containers" entry says about a container: the immutable
//! identity a worker is built from.

use vstd::prelude::*;

verus! {

/// One container as the runtime's listing reports it. Every field is
/// optional: the listing is an external payload and promises nothing.
#[derive(Debug)]
pub struct ContainerIdentity {
    /// The opaque container id, the primary key of the reconciliation loop.
    pub id: Option<String>,
    /// The image name.
    pub image: Option<String>,
    /// The image id, the fallback when the image name is absent.
    pub image_id: Option<String>,
    /// Runtime-assigned names; only the first is used, stripped of leading
    /// path separators.
    pub names: Option<Vec<String>>,
    /// Container metadata labels as key/value pairs.
    pub labels: Option<Vec<(String, String)>>,
    /// Creation time in seconds since the epoch.
    pub created: Option<i64>,
}

/// Mathematical model of a [`ContainerIdentity`].
pub ghost struct ContainerIdentityModel {
    pub id: Option<Seq<char>>,
    pub image: Option<Seq<char>>,
    pub image_id: Option<Seq<char>>,
    pub names: Option<Seq<Seq<char>>>,
    pub labels: Option<Seq<(Seq<char>, Seq<char>)>>,
    pub created: Option<i64>,
}

impl View for ContainerIdentity {
    type V = ContainerIdentityModel;

    open spec fn view(&self) -> ContainerIdentityModel {
        ContainerIdentityModel {
            id: self.id.deep_view(),
            image: self.image.deep_view(),
            image_id: self.image_id.deep_view(),
            names: self.names.deep_view(),
            labels: self.labels.deep_view(),
            created: self.created,
        }
    }
}

impl DeepView for ContainerIdentity {
    type V = ContainerIdentityModel;

    open spec fn deep_view(&self) -> ContainerIdentityModel {
        self.view()
    }
}

} // verus!
