//! The registry protocol: the values the shim writes at the two writable
//! locations, patching them from the resolved configuration, and the
//! idempotent, best-effort reconciliation back to the true installation.
//!
//! The surrounding program performs each write against the operating
//! system's registry; this module decides the writes, in order, as
//! whole-value operations, and models their effect, so that patching and
//! reconciling can be reasoned about and replayed in tests.

use vstd::prelude::*;
use vstd::string::StringExecFns;

use crate::config::ColdLoaderConfig;
use crate::paths::has_sep;
use crate::paths::join;
use crate::paths::join_seq;
use crate::paths::parent_of;
use crate::paths::parent_seq;
use vstd::pervasive::unreached;
use crate::text::view_of_opt_string;

verus! {

/// The registry values the shim touches. `pid`, `client_dll_64` and
/// `universe` live at the per-user "ActiveProcess" location; `steam_path`
/// and `running_app_id` at the per-user Steam root.
pub struct RegistryContent {
    pub pid: u32,
    pub client_dll_64: String,
    pub universe: String,
    pub steam_path: String,
    pub running_app_id: u32,
}

/// The mathematical model of `RegistryContent`.
#[verifier::ext_equal]
pub struct RegistryModel {
    pub pid: u32,
    pub client_dll_64: Seq<char>,
    pub universe: Seq<char>,
    pub steam_path: Seq<char>,
    pub running_app_id: u32,
}

impl View for RegistryContent {
    type V = RegistryModel;

    open spec fn view(&self) -> RegistryModel {
        RegistryModel {
            pid: self.pid,
            client_dll_64: self.client_dll_64@,
            universe: self.universe@,
            steam_path: self.steam_path@,
            running_app_id: self.running_app_id,
        }
    }
}

/// One whole-value registry write.
#[derive(Debug)]
pub enum RegOp {
    SetPid(u32),
    SetClientDll64(String),
    SetUniverse(String),
    SetSteamPath(String),
    SetRunningAppId(u32),
}

/// The mathematical model of `RegOp`.
pub enum RegOpModel {
    SetPid(u32),
    SetClientDll64(Seq<char>),
    SetUniverse(Seq<char>),
    SetSteamPath(Seq<char>),
    SetRunningAppId(u32),
}

impl View for RegOp {
    type V = RegOpModel;

    open spec fn view(&self) -> RegOpModel {
        match self {
            RegOp::SetPid(p) => RegOpModel::SetPid(*p),
            RegOp::SetClientDll64(v) => RegOpModel::SetClientDll64(v@),
            RegOp::SetUniverse(v) => RegOpModel::SetUniverse(v@),
            RegOp::SetSteamPath(v) => RegOpModel::SetSteamPath(v@),
            RegOp::SetRunningAppId(a) => RegOpModel::SetRunningAppId(*a),
        }
    }
}

pub open spec fn ops_model(ops: Seq<RegOp>) -> Seq<RegOpModel> {
    ops.map_values(|o: RegOp| o@)
}

/// A write replaces one value whole and leaves every other value alone.
pub open spec fn apply_op_model(m: RegistryModel, op: RegOpModel) -> RegistryModel {
    match op {
        RegOpModel::SetPid(p) => RegistryModel { pid: p, ..m },
        RegOpModel::SetClientDll64(v) => RegistryModel { client_dll_64: v, ..m },
        RegOpModel::SetUniverse(v) => RegistryModel { universe: v, ..m },
        RegOpModel::SetSteamPath(v) => RegistryModel { steam_path: v, ..m },
        RegOpModel::SetRunningAppId(a) => RegistryModel { running_app_id: a, ..m },
    }
}

pub open spec fn apply_ops_model(m: RegistryModel, ops: Seq<RegOpModel>) -> RegistryModel
    decreases ops.len(),
{
    if ops.len() == 0 {
        m
    } else {
        apply_ops_model(apply_op_model(m, ops.first()), ops.drop_first())
    }
}

/// Performs one whole-value write on the modeled content.
pub fn apply_op(c: RegistryContent, op: &RegOp) -> (r: RegistryContent)
    ensures
        r@ == apply_op_model(c@, op@),
{
    let r = match op {
        RegOp::SetPid(p) => RegistryContent { pid: *p, ..c },
        RegOp::SetClientDll64(v) => RegistryContent { client_dll_64: v.clone(), ..c },
        RegOp::SetUniverse(v) => RegistryContent { universe: v.clone(), ..c },
        RegOp::SetSteamPath(v) => RegistryContent { steam_path: v.clone(), ..c },
        RegOp::SetRunningAppId(a) => RegistryContent { running_app_id: *a, ..c },
    };
    proof {
        assert(r@ =~= apply_op_model(c@, op@));
    }
    r
}

/// Performs a sequence of whole-value writes, in order.
pub fn apply_ops(c: RegistryContent, ops: &Vec<RegOp>) -> (r: RegistryContent)
    ensures
        r@ == apply_ops_model(c@, ops_model(ops@)),
{
    let mut cur = c;
    let mut i: usize = 0;
    proof {
        assert(ops@.skip(0) =~= ops@);
    }
    while i < ops.len()
        invariant
            i <= ops@.len(),
            apply_ops_model(c@, ops_model(ops@)) == apply_ops_model(
                cur@,
                ops_model(ops@.skip(i as int)),
            ),
        decreases ops@.len() - i,
    {
        let ghost rest = ops@.skip(i as int);
        cur = apply_op(cur, &ops[i]);
        proof {
            assert(ops_model(rest).first() == ops@[i as int]@);
            assert(ops_model(rest).drop_first() =~= ops_model(ops@.skip(i + 1)));
        }
        i = i + 1;
    }
    proof {
        assert(ops_model(ops@.skip(i as int)) =~= Seq::<RegOpModel>::empty());
    }
    cur
}

pub open spec fn universe_value() -> Seq<char> {
    "public"@
}

/// The client library file at an installation directory.
pub open spec fn client_dll_in(install: Seq<char>) -> Seq<char> {
    join_seq(install, "steamclient64.dll"@)
}

/// The writes patching makes at the "ActiveProcess" location: every value
/// derives from the configuration and the captured process identity alone.
pub open spec fn patch_active_process_ops(client_dll: Seq<char>, pid: u32) -> Seq<RegOpModel> {
    seq![
        RegOpModel::SetPid(pid),
        RegOpModel::SetClientDll64(client_dll),
        RegOpModel::SetUniverse(universe_value()),
    ]
}

/// The writes patching makes at the Steam root location.
pub open spec fn patch_steam_root_ops(client_dll: Seq<char>, app_id: u32) -> Seq<RegOpModel> {
    seq![
        RegOpModel::SetSteamPath(parent_seq(client_dll)),
        RegOpModel::SetRunningAppId(app_id),
    ]
}

/// The patch writes, grouped by the key they go to. The surrounding program
/// opens each key with write access and performs the group's writes in
/// order; a key that cannot be opened fails the patch, and nothing already
/// written is rolled back.
pub struct PatchPlan {
    pub active_process: Vec<RegOp>,
    pub steam_root: Vec<RegOp>,
}

#[derive(Debug, Clone, Copy, PartialEq, Eq, Structural)]
pub enum RegistryError {
    /// A writable location could not be opened.
    KeyUnavailable,
}

/// The writes that impersonate the configured application, derived from the
/// configuration and the process identity alone, so that patching twice
/// writes the same values twice.
pub fn patch_plan(cfg: &ColdLoaderConfig, pid: u32) -> (p: PatchPlan)
    requires
        has_sep(cfg.steamclient64_path@),
    ensures
        ops_model(p.active_process@) == patch_active_process_ops(cfg.steamclient64_path@, pid),
        ops_model(p.steam_root@) == patch_steam_root_ops(cfg.steamclient64_path@, cfg.app_id),
{
    let parent: String = match parent_of(cfg.steamclient64_path.as_str()) {
        Some(d) => d,
        None => unreached(),
    };
    let mut active_process: Vec<RegOp> = Vec::new();
    active_process.push(RegOp::SetPid(pid));
    active_process.push(RegOp::SetClientDll64(cfg.steamclient64_path.clone()));
    active_process.push(RegOp::SetUniverse(String::from_str("public")));
    let mut steam_root: Vec<RegOp> = Vec::new();
    steam_root.push(RegOp::SetSteamPath(parent));
    steam_root.push(RegOp::SetRunningAppId(cfg.app_id));
    proof {
        assert(ops_model(active_process@) =~= patch_active_process_ops(
            cfg.steamclient64_path@,
            pid,
        ));
        assert(ops_model(steam_root@) =~= patch_steam_root_ops(
            cfg.steamclient64_path@,
            cfg.app_id,
        ));
    }
    PatchPlan { active_process, steam_root }
}

/// Patching applied to modeled content: both locations written when both
/// keys open; the "ActiveProcess" writes kept, not rolled back, when only
/// the Steam root fails; nothing written when "ActiveProcess" fails first.
pub fn patch_apply(
    c: RegistryContent,
    cfg: &ColdLoaderConfig,
    pid: u32,
    active_process_open: bool,
    steam_root_open: bool,
) -> (r: (RegistryContent, Result<(), RegistryError>))
    requires
        has_sep(cfg.steamclient64_path@),
    ensures
        r.1 is Ok <==> active_process_open && steam_root_open,
        !active_process_open ==> r.0@ == c@,
        active_process_open ==> r.0@.pid == pid && r.0@.client_dll_64 == cfg.steamclient64_path@
            && r.0@.universe == universe_value(),
        active_process_open && !steam_root_open ==> r.0@.steam_path == c@.steam_path
            && r.0@.running_app_id == c@.running_app_id,
        active_process_open && steam_root_open ==> r.0@.steam_path == parent_seq(
            cfg.steamclient64_path@,
        ) && r.0@.running_app_id == cfg.app_id,
{
    if !active_process_open {
        return (c, Err(RegistryError::KeyUnavailable));
    }
    let plan = patch_plan(cfg, pid);
    proof {
        lemma_apply_patch_active_process(c@, cfg.steamclient64_path@, pid);
    }
    let cur = apply_ops(c, &plan.active_process);
    if !steam_root_open {
        return (cur, Err(RegistryError::KeyUnavailable));
    }
    proof {
        lemma_apply_patch_steam_root(cur@, cfg.steamclient64_path@, cfg.app_id);
    }
    let done = apply_ops(cur, &plan.steam_root);
    (done, Ok(()))
}

pub proof fn lemma_apply_patch_active_process(m: RegistryModel, client_dll: Seq<char>, pid: u32)
    ensures
        ({
            let r = apply_ops_model(m, patch_active_process_ops(client_dll, pid));
            &&& r.pid == pid
            &&& r.client_dll_64 == client_dll
            &&& r.universe == universe_value()
            &&& r.steam_path == m.steam_path
            &&& r.running_app_id == m.running_app_id
        }),
{
    let ops = patch_active_process_ops(client_dll, pid);
    let m1 = apply_op_model(m, RegOpModel::SetPid(pid));
    let m2 = apply_op_model(m1, RegOpModel::SetClientDll64(client_dll));
    let m3 = apply_op_model(m2, RegOpModel::SetUniverse(universe_value()));
    assert(apply_ops_model(m, ops) == apply_ops_model(m1, ops.drop_first()));
    assert(ops.drop_first().first() == RegOpModel::SetClientDll64(client_dll));
    assert(apply_ops_model(m1, ops.drop_first()) == apply_ops_model(
        m2,
        ops.drop_first().drop_first(),
    ));
    assert(ops.drop_first().drop_first().first() == RegOpModel::SetUniverse(universe_value()));
    assert(apply_ops_model(m2, ops.drop_first().drop_first()) == apply_ops_model(
        m3,
        ops.drop_first().drop_first().drop_first(),
    ));
    assert(ops.drop_first().drop_first().drop_first().len() == 0);
}

pub proof fn lemma_apply_patch_steam_root(m: RegistryModel, client_dll: Seq<char>, app_id: u32)
    ensures
        ({
            let r = apply_ops_model(m, patch_steam_root_ops(client_dll, app_id));
            &&& r.steam_path == parent_seq(client_dll)
            &&& r.running_app_id == app_id
            &&& r.pid == m.pid
            &&& r.client_dll_64 == m.client_dll_64
            &&& r.universe == m.universe
        }),
{
    let ops = patch_steam_root_ops(client_dll, app_id);
    let m1 = apply_op_model(m, RegOpModel::SetSteamPath(parent_seq(client_dll)));
    let m2 = apply_op_model(m1, RegOpModel::SetRunningAppId(app_id));
    assert(apply_ops_model(m, ops) == apply_ops_model(m1, ops.drop_first()));
    assert(ops.drop_first().first() == RegOpModel::SetRunningAppId(app_id));
    assert(apply_ops_model(m1, ops.drop_first()) == apply_ops_model(
        m2,
        ops.drop_first().drop_first(),
    ));
    assert(ops.drop_first().drop_first().len() == 0);
}

/// The writes reconciliation makes: none when the true install record could
/// not be read, else the true client library path and the true install
/// directory, whole. It never touches `pid`, `universe` or the running id.
pub open spec fn reconcile_ops(install: Option<Seq<char>>) -> Seq<RegOpModel> {
    match install {
        None => Seq::empty(),
        Some(p) => seq![
            RegOpModel::SetClientDll64(client_dll_in(p)),
            RegOpModel::SetSteamPath(p),
        ],
    }
}

/// Reconciliation applied to modeled content.
pub open spec fn reconcile_model(m: RegistryModel, install: Option<Seq<char>>) -> RegistryModel {
    apply_ops_model(m, reconcile_ops(install))
}

/// Content whose restorable values match the true installation at `install`.
pub open spec fn reconciled(m: RegistryModel, install: Seq<char>) -> bool {
    m.client_dll_64 == client_dll_in(install) && m.steam_path == install
}

/// The two values reconciliation restores cohere, as the patched values do:
/// the install path is exactly the directory part of the client library
/// path written beside it.
pub proof fn lemma_reconciled_values_cohere(install: Seq<char>)
    ensures
        parent_seq(client_dll_in(install)) == install,
{
    reveal_strlit("steamclient64.dll");
    assert(!crate::paths::has_sep("steamclient64.dll"@));
    crate::paths::lemma_parent_of_join(install, "steamclient64.dll"@);
}

/// The reconciliation writes for a true install directory read from the
/// machine-wide record, or for a failed read.
pub fn reconcile_plan(install_path: &Option<String>) -> (ops: Vec<RegOp>)
    ensures
        ops_model(ops@) == reconcile_ops(view_of_opt_string(*install_path)),
{
    let mut ops: Vec<RegOp> = Vec::new();
    match install_path {
        None => {
            proof {
                assert(ops_model(ops@) =~= reconcile_ops(view_of_opt_string(*install_path)));
            }
            ops
        },
        Some(p) => {
            ops.push(RegOp::SetClientDll64(join(p.as_str(), "steamclient64.dll")));
            ops.push(RegOp::SetSteamPath(p.clone()));
            proof {
                assert(ops_model(ops@) =~= reconcile_ops(view_of_opt_string(*install_path)));
            }
            ops
        },
    }
}

/// Reconciliation on modeled content: a best-effort restoration that never
/// fails and never reports.
pub fn reconcile_apply(c: RegistryContent, install_path: &Option<String>) -> (r: RegistryContent)
    ensures
        r@ == reconcile_model(c@, view_of_opt_string(*install_path)),
{
    let ops = reconcile_plan(install_path);
    apply_ops(c, &ops)
}

pub proof fn lemma_reconcile_fields(m: RegistryModel, p: Seq<char>)
    ensures
        ({
            let r = reconcile_model(m, Some(p));
            &&& r.client_dll_64 == client_dll_in(p)
            &&& r.steam_path == p
            &&& r.pid == m.pid
            &&& r.universe == m.universe
            &&& r.running_app_id == m.running_app_id
        }),
{
    let ops = reconcile_ops(Some(p));
    let m1 = apply_op_model(m, RegOpModel::SetClientDll64(client_dll_in(p)));
    let m2 = apply_op_model(m1, RegOpModel::SetSteamPath(p));
    assert(apply_ops_model(m, ops) == apply_ops_model(m1, ops.drop_first()));
    assert(ops.drop_first().first() == RegOpModel::SetSteamPath(p));
    assert(apply_ops_model(m1, ops.drop_first()) == apply_ops_model(
        m2,
        ops.drop_first().drop_first(),
    ));
    assert(ops.drop_first().drop_first().len() == 0);
}

/// Reconciling twice with the same true install record gives the content of
/// reconciling once: the writes depend only on the record, never on what
/// the registry held before.
pub proof fn lemma_reconcile_idempotent(m: RegistryModel, install: Option<Seq<char>>)
    ensures
        reconcile_model(reconcile_model(m, install), install) == reconcile_model(m, install),
{
    match install {
        None => {},
        Some(p) => {
            lemma_reconcile_fields(m, p);
            lemma_reconcile_fields(reconcile_model(m, Some(p)), p);
            assert(reconcile_model(reconcile_model(m, Some(p)), Some(p)) =~= reconcile_model(
                m,
                Some(p),
            ));
        },
    }
}

pub open spec fn reconcile_n(m: RegistryModel, install: Option<Seq<char>>, n: nat) -> RegistryModel
    decreases n,
{
    if n == 0 {
        m
    } else {
        reconcile_model(reconcile_n(m, install, (n - 1) as nat), install)
    }
}

/// Reconciling any number of times, at least once, with the same true
/// install record yields the content of reconciling once.
pub proof fn lemma_reconcile_repeated(m: RegistryModel, install: Option<Seq<char>>, n: nat)
    requires
        n >= 1,
    ensures
        reconcile_n(m, install, n) == reconcile_model(m, install),
    decreases n,
{
    if n == 1 {
        assert(reconcile_n(m, install, 0) == m);
    } else {
        lemma_reconcile_repeated(m, install, (n - 1) as nat);
        lemma_reconcile_idempotent(m, install);
    }
}

/// When the true-install lookup fails, reconciliation performs no write:
/// every value, in particular the client library path and the install path
/// that patching set, stays exactly as it was.
pub proof fn lemma_reconcile_without_install_is_noop(m: RegistryModel)
    ensures
        reconcile_model(m, None) == m,
{
}

/// Any interleaving, at whole-value granularity, of the writes of two
/// concurrent reconciliations leaves each value either untouched or exactly
/// as one of the two calls writes it: no value is composed of fragments of
/// different calls, and the values reconciliation never touches stay.
pub proof fn lemma_concurrent_reconcile_whole_values(
    m: RegistryModel,
    ops: Seq<RegOpModel>,
    p1: Seq<char>,
    p2: Seq<char>,
)
    requires
        forall|i: int|
            0 <= i < ops.len() ==> reconcile_ops(Some(p1)).contains(ops[i]) || reconcile_ops(
                Some(p2),
            ).contains(ops[i]),
    ensures
        ({
            let r = apply_ops_model(m, ops);
            &&& r.pid == m.pid
            &&& r.universe == m.universe
            &&& r.running_app_id == m.running_app_id
            &&& (r.client_dll_64 == m.client_dll_64 || r.client_dll_64 == client_dll_in(p1)
                || r.client_dll_64 == client_dll_in(p2))
            &&& (r.steam_path == m.steam_path || r.steam_path == p1 || r.steam_path == p2)
        }),
    decreases ops.len(),
{
    if ops.len() > 0 {
        let first = ops.first();
        let m1 = apply_op_model(m, first);
        assert(reconcile_ops(Some(p1)).contains(first) || reconcile_ops(Some(p2)).contains(first));
        assert(first == RegOpModel::SetClientDll64(client_dll_in(p1)) || first
            == RegOpModel::SetSteamPath(p1) || first == RegOpModel::SetClientDll64(client_dll_in(p2))
            || first == RegOpModel::SetSteamPath(p2)) by {
            if reconcile_ops(Some(p1)).contains(first) {
                let i = choose|i: int|
                    0 <= i < reconcile_ops(Some(p1)).len() && reconcile_ops(Some(p1))[i] == first;
                assert(i == 0 || i == 1);
            } else {
                let i = choose|i: int|
                    0 <= i < reconcile_ops(Some(p2)).len() && reconcile_ops(Some(p2))[i] == first;
                assert(i == 0 || i == 1);
            }
        }
        assert(forall|i: int|
            0 <= i < ops.drop_first().len() ==> reconcile_ops(Some(p1)).contains(
                ops.drop_first()[i],
            ) || reconcile_ops(Some(p2)).contains(ops.drop_first()[i]));
        lemma_concurrent_reconcile_whole_values(m1, ops.drop_first(), p1, p2);
    }
}

} // verus!
