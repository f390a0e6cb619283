//! Decisions of the Krustlet provider that runs waSCC actors: which pods it
//! accepts, how running pods are keyed, found and removed, and which
//! capabilities each actor gets. Starting a pod's containers is in
//! `startup`.

use crate::logging::LOG_PATH_KEY;
use crate::registry::Registry;
use vstd::prelude::*;

verus! {

/// The architecture that a pod selects to be run by this provider.
pub const TARGET_WASM32_WASCC: &'static str = "wasm32-wascc";

/// The node-selector key under which a pod names the architecture it needs.
pub const ARCH_SELECTOR_KEY: &'static str = "beta.kubernetes.io/arch";

/// The name of the HTTP capability.
pub const HTTP_CAPABILITY: &'static str = "wascc:http_server";

/// The name of the logging capability.
pub const LOG_CAPABILITY: &'static str = "wascc:logging";

/// The directory, under the kubelet's data directory, that holds the actors' log files.
pub const LOG_DIR_NAME: &'static str = "wascc-logs";

/// The status message of a container that has not reported anything yet.
pub const NO_STATUS_YET: &'static str = "No status has been received from the process";

/// Stops a running waSCC actor, identified by its public key.
pub struct ActorStopper {
    /// The actor's public key.
    pub key: String,
}

/// The error text reported when the host fails to remove an actor.
pub fn actor_removal_failure(detail: &str) -> (r: String)
    ensures
        r@ == "unable to remove actor: "@ + detail@,
{
    String::from_str("unable to remove actor: ").concat(detail)
}

/// The text form of an optional node selector.
pub open spec fn selector_text(node_selector: Option<&Registry<String>>) -> Option<
    Map<Seq<char>, Seq<char>>,
> {
    match node_selector {
        Some(sel) => Some(sel.text()),
        None => None,
    }
}

/// A pod can be scheduled here exactly when its node selector asks for the
/// `wasm32-wascc` architecture.
pub open spec fn schedulable(node_selector: Option<Map<Seq<char>, Seq<char>>>) -> bool {
    match node_selector {
        Some(sel) => sel.dom().contains(ARCH_SELECTOR_KEY@) && sel[ARCH_SELECTOR_KEY@]
            == TARGET_WASM32_WASCC@,
        None => false,
    }
}

/// Whether a pod with this node selector can run on this provider.
pub fn can_schedule(node_selector: Option<&Registry<String>>) -> (r: bool)
    requires
        node_selector matches Some(sel) ==> sel.wf(),
    ensures
        r == schedulable(selector_text(node_selector)),
        r == (node_selector matches Some(sel) && sel@.dom().contains("beta.kubernetes.io/arch"@)
            && sel@["beta.kubernetes.io/arch"@]@ == "wasm32-wascc"@),
{
    match node_selector {
        Some(sel) => match sel.get(ARCH_SELECTOR_KEY) {
            Some(arch) => {
                let target = String::from_str(TARGET_WASM32_WASCC);
                *arch == target
            },
            None => false,
        },
        None => false,
    }
}

/// A pod is schedulable exactly when its selector maps the architecture key
/// to `wasm32-wascc`; a pod without selector is not.
pub proof fn schedulable_exactly_when_arch_matches(sel: Map<Seq<char>, Seq<char>>)
    ensures
        schedulable(Some(sel)) == (sel.dom().contains("beta.kubernetes.io/arch"@)
            && sel["beta.kubernetes.io/arch"@] == "wasm32-wascc"@),
        !schedulable(None),
{
}

/// The other keys of a node selector do not matter: adding or changing any
/// key but the architecture key leaves the answer as it was.
pub proof fn schedulable_ignores_other_keys(
    sel: Map<Seq<char>, Seq<char>>,
    key: Seq<char>,
    value: Seq<char>,
)
    requires
        key != "beta.kubernetes.io/arch"@,
    ensures
        schedulable(Some(sel.insert(key, value))) == schedulable(Some(sel)),
        schedulable(Some(sel.remove(key))) == schedulable(Some(sel)),
{
}

/// The key under which the handle of a pod is stored: its namespace and
/// name, joined by a colon.
pub open spec fn spec_pod_key(namespace: Seq<char>, pod_name: Seq<char>) -> Seq<char> {
    namespace + ":"@ + pod_name
}

/// The key under which the handle of a pod is stored.
pub fn pod_key(namespace: &str, pod_name: &str) -> (r: String)
    ensures
        r@ == spec_pod_key(namespace@, pod_name@),
{
    String::from_str(namespace).concat(":").concat(pod_name)
}

/// The key of a pod is unique: two pods whose namespaces hold no colon get
/// the same key only when they have the same namespace and the same name.
pub proof fn pod_key_is_unique(
    namespace1: Seq<char>,
    pod_name1: Seq<char>,
    namespace2: Seq<char>,
    pod_name2: Seq<char>,
)
    requires
        !namespace1.contains(':'),
        !namespace2.contains(':'),
        spec_pod_key(namespace1, pod_name1) == spec_pod_key(namespace2, pod_name2),
    ensures
        namespace1 == namespace2,
        pod_name1 == pod_name2,
{
    let key = spec_pod_key(namespace1, pod_name1);
    assert(":"@ =~= seq![':']) by {
        reveal_strlit(":");
    }
    let l1: int = namespace1.len() as int;
    let l2: int = namespace2.len() as int;
    if l1 < l2 {
        assert(key[l1] == ':');
        assert(key[l1] == namespace2[l1]);
        assert(false);
    } else if l2 < l1 {
        assert(key[l2] == ':');
        assert(key[l2] == namespace1[l2]);
        assert(false);
    }
    assert forall|i: int| 0 <= i < l1 implies namespace1[i] == namespace2[i] by {
        assert(key[i] == namespace1[i]);
        assert(key[i] == namespace2[i]);
    }
    assert(namespace1 =~= namespace2);
    assert(pod_name1 =~= key.skip(l1 + 1));
    assert(pod_name2 =~= key.skip(l2 + 1));
}

/// Errors of the provider's own.
pub enum ProviderError {
    /// No pod is known under the given name.
    PodNotFound {
        /// The pod's name.
        pod_name: String,
    },
}

/// The handle of a running pod, looked up to read a container's logs.
pub fn pod_handle_for_logs<'a, H>(
    handles: &'a mut Registry<H>,
    namespace: &str,
    pod_name: &str,
) -> (r: Result<&'a mut H, ProviderError>)
    requires
        old(handles).wf(),
    ensures
        final(handles).wf(),
        ({
            let key = spec_pod_key(namespace@, pod_name@);
            match r {
                Ok(h) => {
                    &&& old(handles)@.dom().contains(key)
                    &&& *h == old(handles)@[key]
                    &&& final(handles)@ == old(handles)@.insert(key, *final(h))
                },
                Err(ProviderError::PodNotFound { pod_name: name }) => {
                    &&& !old(handles)@.dom().contains(key)
                    &&& name@ == pod_name@
                    &&& final(handles)@ == old(handles)@
                },
            }
        }),
{
    let key = pod_key(namespace, pod_name);
    match handles.get_mut(key.as_str()) {
        Some(h) => Ok(h),
        None => Err(ProviderError::PodNotFound { pod_name: String::from_str(pod_name) }),
    }
}

/// Takes the handle of a pod out of the table so that the pod can be stopped.
pub fn take_for_delete<H>(handles: &mut Registry<H>, namespace: &str, pod_name: &str) -> (r:
    Option<H>)
    requires
        old(handles).wf(),
    ensures
        final(handles).wf(),
        ({
            let key = spec_pod_key(namespace@, pod_name@);
            &&& final(handles)@ == old(handles)@.remove(key)
            &&& match r {
                Some(h) => old(handles)@.dom().contains(key) && h == old(handles)@[key],
                None => !old(handles)@.dom().contains(key),
            }
        }),
{
    let key = pod_key(namespace, pod_name);
    handles.remove(key.as_str())
}

/// Settles the deletion of a pod once stopping it was tried: a pod that could
/// not be stopped goes back into the table, one that stopped stays out.
pub fn settle_delete<H>(
    handles: &mut Registry<H>,
    namespace: &str,
    pod_name: &str,
    handle: H,
    stopped: bool,
)
    requires
        old(handles).wf(),
    ensures
        final(handles).wf(),
        stopped ==> final(handles)@ == old(handles)@,
        !stopped ==> final(handles)@ == old(handles)@.insert(
            spec_pod_key(namespace@, pod_name@),
            handle,
        ),
{
    if !stopped {
        let key = pod_key(namespace, pod_name);
        handles.insert(key, handle);
    }
}

/// A pod whose stop fails is kept: taking its handle out of the table and
/// putting it back after the failed stop leaves the table as it was.
pub proof fn failed_stop_keeps_pod<H>(before: Map<Seq<char>, H>, key: Seq<char>)
    requires
        before.dom().contains(key),
    ensures
        before.remove(key).insert(key, before[key]) == before,
{
    assert(before.remove(key).insert(key, before[key]) =~= before);
}

/// A waSCC capability configured for an actor: its name and its settings.
pub struct Capability {
    /// The capability's name.
    pub name: String,
    /// The settings handed to the capability for this actor.
    pub env: Registry<String>,
}

/// The capabilities of an actor that serves HTTP: the HTTP capability,
/// configured with the pod's environment.
pub fn http_capabilities(env: Registry<String>) -> (caps: Vec<Capability>)
    requires
        env.wf(),
    ensures
        caps@.len() == 1,
        caps@[0].name@ == HTTP_CAPABILITY@,
        caps@[0].env.wf(),
        caps@[0].env@ == env@,
{
    let mut caps: Vec<Capability> = Vec::new();
    caps.push(Capability { name: String::from_str(HTTP_CAPABILITY), env: env });
    caps
}

/// Adds the logging capability, which writes the actor's log into the file
/// at `log_file`.
pub fn add_log_capability(caps: &mut Vec<Capability>, log_file: String)
    ensures
        final(caps)@.len() == old(caps)@.len() + 1,
        final(caps)@.drop_last() == old(caps)@,
        final(caps)@.last().name@ == LOG_CAPABILITY@,
        final(caps)@.last().env.wf(),
        final(caps)@.last().env.text() == Map::<Seq<char>, Seq<char>>::empty().insert(
            LOG_PATH_KEY@,
            log_file@,
        ),
{
    let mut env = Registry::new();
    env.insert(String::from_str(LOG_PATH_KEY), log_file);
    proof {
        assert(env.text() =~= Map::<Seq<char>, Seq<char>>::empty().insert(
            LOG_PATH_KEY@,
            log_file@,
        ));
    }
    caps.push(Capability { name: String::from_str(LOG_CAPABILITY), env });
    proof {
        assert(caps@.drop_last() == old(caps)@);
    }
}

} // verus!
