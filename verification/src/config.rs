//! Layered configuration: the snapshot that the rest of the library
//! consumes, and the right-biased merge that stacks defaults, a file layer
//! and a command-line layer.

use vstd::prelude::*;

verus! {

/// Errors of configuration loading: no file at any expected location, an
/// unreadable file, or unparsable content. Fatal before any remote resource
/// is created.
#[derive(Debug)]
pub enum ConfigError {
    NotFound,
    Io(String),
    Parse(String),
}

/// One label or annotation entry, copied verbatim into the pod manifest.
#[derive(Debug, PartialEq)]
pub struct KeyValue {
    pub key: String,
    pub value: String,
}

/// Mathematical model of a [`KeyValue`].
pub struct KeyValueView {
    pub key: Seq<char>,
    pub value: Seq<char>,
}

impl View for KeyValue {
    type V = KeyValueView;

    open spec fn view(&self) -> KeyValueView {
        KeyValueView { key: self.key@, value: self.value@ }
    }
}

impl DeepView for KeyValue {
    type V = KeyValueView;

    open spec fn deep_view(&self) -> KeyValueView {
        self.view()
    }
}

impl Clone for KeyValue {
    fn clone(&self) -> (r: Self)
        ensures
            r == *self,
    {
        KeyValue { key: self.key.clone(), value: self.value.clone() }
    }
}

/// CPU and memory requests for the workload container.
#[derive(Debug, PartialEq)]
pub struct PodResources {
    pub cpu: Option<String>,
    pub memory: Option<String>,
}

/// Mathematical model of a [`PodResources`].
pub struct PodResourcesView {
    pub cpu: Option<Seq<char>>,
    pub memory: Option<Seq<char>>,
}

impl View for PodResources {
    type V = PodResourcesView;

    open spec fn view(&self) -> PodResourcesView {
        PodResourcesView { cpu: self.cpu.deep_view(), memory: self.memory.deep_view() }
    }
}

impl DeepView for PodResources {
    type V = PodResourcesView;

    open spec fn deep_view(&self) -> PodResourcesView {
        self.view()
    }
}

impl Clone for PodResources {
    fn clone(&self) -> (r: Self)
        ensures
            r == *self,
    {
        PodResources { cpu: self.cpu.clone(), memory: self.memory.clone() }
    }
}

/// An immutable configuration snapshot. Every field is optional: a layer
/// leaves a field untouched by holding `None` there.
#[derive(Debug, PartialEq)]
pub struct Config {
    pub kubeconfig: Option<String>,
    pub context: Option<String>,
    pub namespace: Option<String>,
    pub ssh_public_key_path: Option<String>,
    pub ssh_username: Option<String>,
    pub local_socks_port: Option<u16>,
    pub pod_ttl_seconds: Option<u64>,
    pub pod_image: Option<String>,
    pub pod_resources: Option<PodResources>,
    pub pod_labels: Option<Vec<KeyValue>>,
    pub pod_annotations: Option<Vec<KeyValue>>,
    pub log_level: Option<String>,
}

/// Mathematical model of a [`Config`].
#[verifier::ext_equal]
pub struct ConfigView {
    pub kubeconfig: Option<Seq<char>>,
    pub context: Option<Seq<char>>,
    pub namespace: Option<Seq<char>>,
    pub ssh_public_key_path: Option<Seq<char>>,
    pub ssh_username: Option<Seq<char>>,
    pub local_socks_port: Option<u16>,
    pub pod_ttl_seconds: Option<u64>,
    pub pod_image: Option<Seq<char>>,
    pub pod_resources: Option<PodResourcesView>,
    pub pod_labels: Option<Seq<KeyValueView>>,
    pub pod_annotations: Option<Seq<KeyValueView>>,
    pub log_level: Option<Seq<char>>,
}

impl View for Config {
    type V = ConfigView;

    open spec fn view(&self) -> ConfigView {
        ConfigView {
            kubeconfig: self.kubeconfig.deep_view(),
            context: self.context.deep_view(),
            namespace: self.namespace.deep_view(),
            ssh_public_key_path: self.ssh_public_key_path.deep_view(),
            ssh_username: self.ssh_username.deep_view(),
            local_socks_port: self.local_socks_port,
            pod_ttl_seconds: self.pod_ttl_seconds,
            pod_image: self.pod_image.deep_view(),
            pod_resources: self.pod_resources.deep_view(),
            pod_labels: self.pod_labels.deep_view(),
            pod_annotations: self.pod_annotations.deep_view(),
            log_level: self.log_level.deep_view(),
        }
    }
}

impl Clone for Config {
    fn clone(&self) -> (r: Self)
        ensures
            r@ == self@,
    {
        let r = Config {
            kubeconfig: self.kubeconfig.clone(),
            context: self.context.clone(),
            namespace: self.namespace.clone(),
            ssh_public_key_path: self.ssh_public_key_path.clone(),
            ssh_username: self.ssh_username.clone(),
            local_socks_port: self.local_socks_port,
            pod_ttl_seconds: self.pod_ttl_seconds,
            pod_image: self.pod_image.clone(),
            pod_resources: self.pod_resources.clone(),
            pod_labels: self.pod_labels.clone(),
            pod_annotations: self.pod_annotations.clone(),
            log_level: self.log_level.clone(),
        };
        proof {
            assert(r@ =~= self@);
        }
        r
    }
}

/// Keeps `base` unless the layer supplies a value: the core of right-biased
/// layering.
pub open spec fn merge_field<T>(base: Option<T>, layer: Option<T>) -> Option<T> {
    if layer is Some {
        layer
    } else {
        base
    }
}

/// Overwrites the destination with the source only if the source is present.
pub fn overwrite_if_some<T>(left: &mut Option<T>, right: Option<T>)
    ensures
        *final(left) == merge_field(*old(left), right),
{
    if right.is_some() {
        *left = right;
    }
}

/// The right-biased merge of two configuration layers, field by field.
pub open spec fn spec_merge(base: ConfigView, layer: ConfigView) -> ConfigView {
    ConfigView {
        kubeconfig: merge_field(base.kubeconfig, layer.kubeconfig),
        context: merge_field(base.context, layer.context),
        namespace: merge_field(base.namespace, layer.namespace),
        ssh_public_key_path: merge_field(base.ssh_public_key_path, layer.ssh_public_key_path),
        ssh_username: merge_field(base.ssh_username, layer.ssh_username),
        local_socks_port: merge_field(base.local_socks_port, layer.local_socks_port),
        pod_ttl_seconds: merge_field(base.pod_ttl_seconds, layer.pod_ttl_seconds),
        pod_image: merge_field(base.pod_image, layer.pod_image),
        pod_resources: merge_field(base.pod_resources, layer.pod_resources),
        pod_labels: merge_field(base.pod_labels, layer.pod_labels),
        pod_annotations: merge_field(base.pod_annotations, layer.pod_annotations),
        log_level: merge_field(base.log_level, layer.log_level),
    }
}

impl Config {
    /// Merges `other` onto `self`: a field of `other` that is present wins,
    /// an absent field leaves `self`'s value in place.
    pub fn merge(&mut self, other: Config)
        ensures
            final(self)@ == spec_merge(old(self)@, other@),
    {
        overwrite_if_some(&mut self.kubeconfig, other.kubeconfig);
        overwrite_if_some(&mut self.context, other.context);
        overwrite_if_some(&mut self.namespace, other.namespace);
        overwrite_if_some(&mut self.ssh_public_key_path, other.ssh_public_key_path);
        overwrite_if_some(&mut self.ssh_username, other.ssh_username);
        overwrite_if_some(&mut self.local_socks_port, other.local_socks_port);
        overwrite_if_some(&mut self.pod_ttl_seconds, other.pod_ttl_seconds);
        overwrite_if_some(&mut self.pod_image, other.pod_image);
        overwrite_if_some(&mut self.pod_resources, other.pod_resources);
        overwrite_if_some(&mut self.pod_labels, other.pod_labels);
        overwrite_if_some(&mut self.pod_annotations, other.pod_annotations);
        overwrite_if_some(&mut self.log_level, other.log_level);
        proof {
            assert(self@ =~= spec_merge(old(self)@, other@));
        }
    }
}

/// A layer that supplies nothing: merging it changes no field.
pub open spec fn all_absent(c: ConfigView) -> bool {
    &&& c.kubeconfig is None
    &&& c.context is None
    &&& c.namespace is None
    &&& c.ssh_public_key_path is None
    &&& c.ssh_username is None
    &&& c.local_socks_port is None
    &&& c.pod_ttl_seconds is None
    &&& c.pod_image is None
    &&& c.pod_resources is None
    &&& c.pod_labels is None
    &&& c.pod_annotations is None
    &&& c.log_level is None
}

/// A layer that supplies every field: merging it replaces the base wholesale.
pub open spec fn all_present(c: ConfigView) -> bool {
    &&& c.kubeconfig is Some
    &&& c.context is Some
    &&& c.namespace is Some
    &&& c.ssh_public_key_path is Some
    &&& c.ssh_username is Some
    &&& c.local_socks_port is Some
    &&& c.pod_ttl_seconds is Some
    &&& c.pod_image is Some
    &&& c.pod_resources is Some
    &&& c.pod_labels is Some
    &&& c.pod_annotations is Some
    &&& c.log_level is Some
}

/// Merging an all-absent layer onto any base leaves the base unchanged.
pub proof fn lemma_merge_absent_layer(base: ConfigView, layer: ConfigView)
    requires
        all_absent(layer),
    ensures
        spec_merge(base, layer) == base,
{
    assert(spec_merge(base, layer) =~= base);
}

/// Merging a fully-populated layer onto any base yields exactly that layer.
pub proof fn lemma_merge_full_layer(base: ConfigView, layer: ConfigView)
    requires
        all_present(layer),
    ensures
        spec_merge(base, layer) == layer,
{
    assert(spec_merge(base, layer) =~= layer);
}

/// Layering is idempotent: applying the same layer twice is the same as
/// applying it once.
pub proof fn lemma_merge_idempotent(base: ConfigView, layer: ConfigView)
    ensures
        spec_merge(spec_merge(base, layer), layer) == spec_merge(base, layer),
{
    assert(spec_merge(spec_merge(base, layer), layer) =~= spec_merge(base, layer));
}

/// The built-in defaults: the bottom layer of the stack.
pub open spec fn spec_default_config() -> ConfigView {
    ConfigView {
        kubeconfig: Some("~/.kube/config"@),
        context: None,
        namespace: Some("default"@),
        ssh_public_key_path: Some("~/.ssh/id_rsa.pub"@),
        ssh_username: Some("k8socks"@),
        local_socks_port: Some(1080),
        pod_ttl_seconds: Some(900),
        pod_image: Some("linuxserver/openssh-server:latest"@),
        pod_resources: Some(PodResourcesView { cpu: Some("50m"@), memory: Some("64Mi"@) }),
        pod_labels: Some(seq![KeyValueView { key: "app"@, value: "k8socks"@ }]),
        pod_annotations: Some(Seq::empty()),
        log_level: Some("info"@),
    }
}

impl Default for Config {
    /// The defaults every session starts from; file and command-line layers
    /// are merged on top.
    fn default() -> (r: Self)
        ensures
            r@ == spec_default_config(),
    {
        let labels = vec![
            KeyValue { key: String::from_str("app"), value: String::from_str("k8socks") },
        ];
        let r = Config {
            kubeconfig: Some(String::from_str("~/.kube/config")),
            context: None,
            namespace: Some(String::from_str("default")),
            ssh_public_key_path: Some(String::from_str("~/.ssh/id_rsa.pub")),
            ssh_username: Some(String::from_str("k8socks")),
            local_socks_port: Some(1080),
            pod_ttl_seconds: Some(900),
            pod_image: Some(String::from_str("linuxserver/openssh-server:latest")),
            pod_resources: Some(
                PodResources {
                    cpu: Some(String::from_str("50m")),
                    memory: Some(String::from_str("64Mi")),
                },
            ),
            pod_labels: Some(labels),
            pod_annotations: Some(Vec::new()),
            log_level: Some(String::from_str("info")),
        };
        proof {
            assert(r@.pod_labels == Some(seq![KeyValueView { key: "app"@, value: "k8socks"@ }]))
                by {
                assert(r.pod_labels.deep_view() =~= Some(
                    seq![KeyValueView { key: "app"@, value: "k8socks"@ }],
                ));
            }
            assert(r@.pod_annotations == Some(Seq::<KeyValueView>::empty())) by {
                assert(r.pod_annotations.deep_view() =~= Some(Seq::<KeyValueView>::empty()));
            }
            assert(r@ =~= spec_default_config());
        }
        r
    }
}

/// A path begins with a tilde component: it is exactly "~", or starts with
/// "~/". A name like "~user" is not a tilde component and is left alone.
pub open spec fn spec_has_tilde_prefix(p: Seq<char>) -> bool {
    p.len() >= 1 && p[0] == '~' && (p.len() == 1 || p[1] == '/')
}

/// Tilde expansion against a given home directory: "~" becomes the home
/// directory, "~/rest" becomes the home directory joined with "rest", and
/// any other path is returned unchanged.
pub open spec fn spec_expand_tilde(p: Seq<char>, home: Seq<char>) -> Seq<char> {
    if spec_has_tilde_prefix(p) {
        home + p.subrange(1, p.len() as int)
    } else {
        p
    }
}

/// Relies on `directories::BaseDirs::new` and `BaseDirs::home_dir` to look
/// up the user's home directory. The result depends on the environment, so
/// nothing is promised of the value.
#[verifier::external_body]
fn home_dir() -> (r: Option<String>)
{
    match directories::BaseDirs::new() {
        Some(dirs) => Some(dirs.home_dir().to_string_lossy().into_owned()),
        None => None,
    }
}

/// Expands a leading tilde component of `path` against the given home
/// directory, exactly as [`spec_expand_tilde`] says.
pub fn expand_tilde_with(path: &str, home: &str) -> (r: String)
    ensures
        r@ == spec_expand_tilde(path@, home@),
{
    let n = path.unicode_len();
    let tilde = n >= 1 && path.get_char(0) == '~' && (n == 1 || path.get_char(1) == '/');
    if tilde {
        let mut r = String::from_str(home);
        r.append(path.substring_char(1, n));
        r
    } else {
        path.to_owned()
    }
}

/// The configuration provider: resolves paths for the rest of the tool. The
/// file lookup and parsing happen outside the library; the path logic lives
/// here.
pub struct ConfigServiceImpl;

impl ConfigServiceImpl {
    /// Resolves a path that may start with a tilde component. A path without
    /// one comes back unchanged; one with a tilde is expanded against the
    /// user's home directory, and `None` is returned only when that
    /// directory cannot be determined from the environment.
    pub fn expand_tilde(path: &str) -> (r: Option<String>)
        ensures
            !spec_has_tilde_prefix(path@) ==> (r matches Some(s) && s@ == path@),
            r is None ==> spec_has_tilde_prefix(path@),
            r matches Some(s) ==> (exists|home: Seq<char>|
                s@ == spec_expand_tilde(path@, home)),
    {
        let n = path.unicode_len();
        let tilde = n >= 1 && path.get_char(0) == '~' && (n == 1 || path.get_char(1) == '/');
        if !tilde {
            let r = path.to_owned();
            proof {
                assert(r@ == spec_expand_tilde(path@, Seq::<char>::empty()));
            }
            Some(r)
        } else {
            match home_dir() {
                Some(home) => Some(expand_tilde_with(path, home.as_str())),
                None => None,
            }
        }
    }
}

} // verus!
