//! Task orchestration: the task descriptor, the executor argument
//! vector it turns into, per-run defaulting of log, stdout and report
//! paths, and the judger that runs a task sequence with stop-on-failure.
use vstd::prelude::*;
use vstd::string::StringExecFns;
use crate::text::{
    kv_deep, kv_has, kv_value, kv_updated, kv_get, kv_set, dec_digits, append_decimal,
    lemma_kv_updated_frame,
};
use crate::dir_utils::{DirHandle, BaseDir, bind_text};
use crate::report::{JudgerResult, is_default_result, parsed_report_ok, spec_task_failed, task_failed};

verus! {

/// One unit of sandboxed work: executor options, judging metadata that
/// the executor never sees, mount directives, the executable with its
/// arguments, the working directory, and environment entries.
pub struct NsjailTask {
    pub config: Vec<(String, String)>,
    pub meta_data: Vec<(String, String)>,
    pub mount: Vec<String>,
    pub exec_path: String,
    pub args: Vec<String>,
    pub cwd: String,
    pub envs: Vec<(String, String)>,
}

/// A task sequence and the root filesystem the executor chroots into.
pub struct NsjailConfig {
    pub rootfs_path: String,
    pub task_config: Vec<NsjailTask>,
}

/// The views of a list of strings.
pub open spec fn str_views(v: Seq<String>) -> Seq<Seq<char>> {
    v.map_values(|s: String| s@)
}

/// Two tasks carry the same data, field by field.
pub open spec fn task_eq(a: &NsjailTask, b: &NsjailTask) -> bool {
    kv_deep(a.config@) == kv_deep(b.config@) && kv_deep(a.meta_data@) == kv_deep(b.meta_data@)
        && str_views(a.mount@) == str_views(b.mount@) && a.exec_path@ == b.exec_path@ && str_views(a.args@)
        == str_views(b.args@) && a.cwd@ == b.cwd@ && kv_deep(a.envs@) == kv_deep(b.envs@)
}

impl Default for NsjailTask {
    /// An empty task rooted at `/`.
    fn default() -> (r: Self)
        ensures
            r.config@.len() == 0,
            r.meta_data@.len() == 0,
            r.mount@.len() == 0,
            r.exec_path@ == Seq::<char>::empty(),
            r.args@.len() == 0,
            r.cwd@ == "/"@,
            r.envs@.len() == 0,
    {
        NsjailTask {
            config: Vec::new(),
            meta_data: Vec::new(),
            mount: Vec::new(),
            exec_path: String::new(),
            args: Vec::new(),
            cwd: String::from_str("/"),
            envs: Vec::new(),
        }
    }
}

impl Default for NsjailConfig {
    /// No tasks and no root filesystem yet.
    fn default() -> (r: Self)
        ensures
            r.rootfs_path@ == Seq::<char>::empty(),
            r.task_config@.len() == 0,
    {
        NsjailConfig { rootfs_path: String::new(), task_config: Vec::new() }
    }
}

fn clone_string_vec(v: &Vec<String>) -> (r: Vec<String>)
    ensures
        r@ =~= v@,
{
    let mut r: Vec<String> = Vec::new();
    let mut i: usize = 0;
    while i < v.len()
        invariant
            0 <= i <= v@.len(),
            r@ =~= v@.take(i as int),
        decreases v@.len() - i,
    {
        r.push(v[i].clone());
        proof {
            assert(r@ =~= v@.take(i as int + 1));
        }
        i = i + 1;
    }
    r
}

fn clone_pairs(v: &Vec<(String, String)>) -> (r: Vec<(String, String)>)
    ensures
        r@ =~= v@,
{
    let mut r: Vec<(String, String)> = Vec::new();
    let mut i: usize = 0;
    while i < v.len()
        invariant
            0 <= i <= v@.len(),
            r@ =~= v@.take(i as int),
        decreases v@.len() - i,
    {
        let p = (v[i].0.clone(), v[i].1.clone());
        proof {
            assert(p == v@[i as int]);
        }
        r.push(p);
        proof {
            assert(r@ =~= v@.take(i as int + 1));
        }
        i = i + 1;
    }
    r
}

fn clone_task(t: &NsjailTask) -> (r: NsjailTask)
    ensures
        r.config@ =~= t.config@,
        r.meta_data@ =~= t.meta_data@,
        r.mount@ =~= t.mount@,
        r.exec_path@ == t.exec_path@,
        r.args@ =~= t.args@,
        r.cwd@ == t.cwd@,
        r.envs@ =~= t.envs@,
{
    NsjailTask {
        config: clone_pairs(&t.config),
        meta_data: clone_pairs(&t.meta_data),
        mount: clone_string_vec(&t.mount),
        exec_path: t.exec_path.clone(),
        args: clone_string_vec(&t.args),
        cwd: t.cwd.clone(),
        envs: clone_pairs(&t.envs),
    }
}

/// The `--<key> <value>` token pairs of the executor options, in order.
pub open spec fn opt_tokens(pairs: Seq<(Seq<char>, Seq<char>)>) -> Seq<Seq<char>>
    decreases pairs.len(),
{
    if pairs.len() == 0 {
        Seq::empty()
    } else {
        seq!["--"@ + pairs[0].0, pairs[0].1] + opt_tokens(pairs.drop_first())
    }
}

/// The `--env <KEY>=<VALUE>` token pairs of the environment, in order.
pub open spec fn env_tokens(pairs: Seq<(Seq<char>, Seq<char>)>) -> Seq<Seq<char>>
    decreases pairs.len(),
{
    if pairs.len() == 0 {
        Seq::empty()
    } else {
        seq!["--env"@, pairs[0].0 + "="@ + pairs[0].1] + env_tokens(pairs.drop_first())
    }
}

/// The full executor argument vector of a task: isolation mode, chroot,
/// options, environment, mounts, working directory, a separator, then
/// the executable and its arguments.
pub open spec fn args_spec(t: &NsjailTask, rootfs: Seq<char>) -> Seq<Seq<char>> {
    seq!["-Mo"@, "--chroot"@, rootfs] + opt_tokens(kv_deep(t.config@)) + env_tokens(
        kv_deep(t.envs@),
    ) + str_views(t.mount@) + seq!["--cwd"@, t.cwd@] + seq!["--"@, t.exec_path@] + str_views(t.args@)
}

proof fn lemma_opt_tokens_push(s: Seq<(Seq<char>, Seq<char>)>, p: (Seq<char>, Seq<char>))
    ensures
        opt_tokens(s.push(p)) =~= opt_tokens(s) + seq!["--"@ + p.0, p.1],
    decreases s.len(),
{
    let v = s.push(p);
    if s.len() == 0 {
        assert(v[0] == p);
        assert(v.drop_first() =~= Seq::<(Seq<char>, Seq<char>)>::empty());
        assert(opt_tokens(Seq::<(Seq<char>, Seq<char>)>::empty()) =~= Seq::<Seq<char>>::empty());
        assert(opt_tokens(v) =~= seq!["--"@ + p.0, p.1] + opt_tokens(v.drop_first()));
        assert(opt_tokens(s) =~= Seq::<Seq<char>>::empty());
    } else {
        assert(v[0] == s[0]);
        assert(v.drop_first() =~= s.drop_first().push(p));
        lemma_opt_tokens_push(s.drop_first(), p);
        assert(opt_tokens(v) =~= seq!["--"@ + v[0].0, v[0].1] + opt_tokens(v.drop_first()));
        assert(opt_tokens(s) =~= seq!["--"@ + s[0].0, s[0].1] + opt_tokens(s.drop_first()));
    }
}

proof fn lemma_env_tokens_push(s: Seq<(Seq<char>, Seq<char>)>, p: (Seq<char>, Seq<char>))
    ensures
        env_tokens(s.push(p)) =~= env_tokens(s) + seq!["--env"@, p.0 + "="@ + p.1],
    decreases s.len(),
{
    let v = s.push(p);
    if s.len() == 0 {
        assert(v[0] == p);
        assert(v.drop_first() =~= Seq::<(Seq<char>, Seq<char>)>::empty());
        assert(env_tokens(Seq::<(Seq<char>, Seq<char>)>::empty()) =~= Seq::<Seq<char>>::empty());
        assert(env_tokens(v) =~= seq!["--env"@, p.0 + "="@ + p.1] + env_tokens(v.drop_first()));
        assert(env_tokens(s) =~= Seq::<Seq<char>>::empty());
    } else {
        assert(v[0] == s[0]);
        assert(v.drop_first() =~= s.drop_first().push(p));
        lemma_env_tokens_push(s.drop_first(), p);
        assert(env_tokens(v) =~= seq!["--env"@, v[0].0 + "="@ + v[0].1] + env_tokens(
            v.drop_first(),
        ));
        assert(env_tokens(s) =~= seq!["--env"@, s[0].0 + "="@ + s[0].1] + env_tokens(
            s.drop_first(),
        ));
    }
}

impl NsjailTask {
    /// The argument tokens handed to the sandbox for one task.
    pub fn to_args(&self, rootfs: &String) -> (r: Vec<String>)
        ensures
            str_views(r@) == args_spec(self, rootfs@),
    {
        let ghost head = seq!["-Mo"@, "--chroot"@, rootfs@];
        let mut r: Vec<String> = Vec::new();
        r.push(String::from_str("-Mo"));
        r.push(String::from_str("--chroot"));
        r.push(rootfs.clone());
        proof {
            assert(str_views(r@) =~= head + opt_tokens(kv_deep(self.config@).take(0)));
        }
        let mut i: usize = 0;
        while i < self.config.len()
            invariant
                0 <= i <= self.config@.len(),
                head == seq!["-Mo"@, "--chroot"@, rootfs@],
                str_views(r@) =~= head + opt_tokens(kv_deep(self.config@).take(i as int)),
            decreases self.config@.len() - i,
        {
            let mut key = String::from_str("--");
            key.append(self.config[i].0.as_str());
            let ghost kview = key@;
            let ghost pre = r@;
            r.push(key);
            r.push(self.config[i].1.clone());
            proof {
                let deep = kv_deep(self.config@);
                assert(deep[i as int] == (self.config@[i as int].0@, self.config@[i as int].1@));
                assert(deep.take(i as int + 1) =~= deep.take(i as int).push(deep[i as int]));
                lemma_opt_tokens_push(deep.take(i as int), deep[i as int]);
                assert(str_views(r@) =~= str_views(pre).push(kview).push(
                    self.config@[i as int].1@,
                ));
                assert(str_views(r@) =~= head + opt_tokens(deep.take(i as int + 1)));
            }
            i = i + 1;
        }
        let ghost head2 = head + opt_tokens(kv_deep(self.config@));
        proof {
            assert(kv_deep(self.config@).take(self.config@.len() as int) =~= kv_deep(
                self.config@,
            ));
            assert(str_views(r@) =~= head2 + env_tokens(kv_deep(self.envs@).take(0)));
        }
        let mut i: usize = 0;
        while i < self.envs.len()
            invariant
                0 <= i <= self.envs@.len(),
                head2 == seq!["-Mo"@, "--chroot"@, rootfs@] + opt_tokens(kv_deep(self.config@)),
                str_views(r@) =~= head2 + env_tokens(kv_deep(self.envs@).take(i as int)),
            decreases self.envs@.len() - i,
        {
            let ghost pre = r@;
            r.push(String::from_str("--env"));
            let mut pair = self.envs[i].0.clone();
            pair.append("=");
            pair.append(self.envs[i].1.as_str());
            let ghost pview = pair@;
            r.push(pair);
            proof {
                let deep = kv_deep(self.envs@);
                assert(deep[i as int] == (self.envs@[i as int].0@, self.envs@[i as int].1@));
                assert(deep.take(i as int + 1) =~= deep.take(i as int).push(deep[i as int]));
                lemma_env_tokens_push(deep.take(i as int), deep[i as int]);
                assert(str_views(r@) =~= str_views(pre).push("--env"@).push(pview));
                assert(str_views(r@) =~= head2 + env_tokens(deep.take(i as int + 1)));
            }
            i = i + 1;
        }
        let ghost head3 = head2 + env_tokens(kv_deep(self.envs@));
        proof {
            assert(kv_deep(self.envs@).take(self.envs@.len() as int) =~= kv_deep(self.envs@));
            assert(str_views(r@) =~= head3 + str_views(self.mount@).take(0));
        }
        let mut i: usize = 0;
        while i < self.mount.len()
            invariant
                0 <= i <= self.mount@.len(),
                head3 == seq!["-Mo"@, "--chroot"@, rootfs@] + opt_tokens(kv_deep(self.config@))
                    + env_tokens(kv_deep(self.envs@)),
                str_views(r@) =~= head3 + str_views(self.mount@).take(i as int),
            decreases self.mount@.len() - i,
        {
            let ghost pre = r@;
            r.push(self.mount[i].clone());
            proof {
                assert(str_views(r@) =~= str_views(pre).push(self.mount@[i as int]@));
                assert(str_views(self.mount@).take(i as int + 1) =~= str_views(
                    self.mount@,
                ).take(i as int).push(self.mount@[i as int]@));
                assert(str_views(r@) =~= head3 + str_views(self.mount@).take(i as int + 1));
            }
            i = i + 1;
        }
        r.push(String::from_str("--cwd"));
        r.push(self.cwd.clone());
        r.push(String::from_str("--"));
        r.push(self.exec_path.clone());
        let ghost head4 = head3 + str_views(self.mount@) + seq!["--cwd"@, self.cwd@] + seq![
            "--"@,
            self.exec_path@,
        ];
        proof {
            assert(str_views(self.mount@).take(self.mount@.len() as int) =~= str_views(
                self.mount@,
            ));
            assert(str_views(r@) =~= head4 + str_views(self.args@).take(0));
        }
        let mut i: usize = 0;
        while i < self.args.len()
            invariant
                0 <= i <= self.args@.len(),
                head4 == seq!["-Mo"@, "--chroot"@, rootfs@] + opt_tokens(kv_deep(self.config@))
                    + env_tokens(kv_deep(self.envs@)) + str_views(self.mount@) + seq![
                    "--cwd"@,
                    self.cwd@,
                ] + seq!["--"@, self.exec_path@],
                str_views(r@) =~= head4 + str_views(self.args@).take(i as int),
            decreases self.args@.len() - i,
        {
            let ghost pre = r@;
            r.push(self.args[i].clone());
            proof {
                assert(str_views(r@) =~= str_views(pre).push(self.args@[i as int]@));
                assert(str_views(self.args@).take(i as int + 1) =~= str_views(self.args@).take(
                    i as int,
                ).push(self.args@[i as int]@));
                assert(str_views(r@) =~= head4 + str_views(self.args@).take(i as int + 1));
            }
            i = i + 1;
        }
        proof {
            assert(str_views(self.args@).take(self.args@.len() as int) =~= str_views(self.args@));
            assert(str_views(r@) =~= args_spec(self, rootfs@));
        }
        r
    }

    /// Kept for interface compatibility: the log, stdout and report
    /// entries are defaulted by `convert_task` just before execution, so
    /// this call leaves the task as it is.
    pub fn default_fd(&mut self, cursor: usize)
        ensures
            *final(self) == *old(self),
    {
        let _ = cursor;
    }
}


/// `x` placed under `dir`.
pub open spec fn joined(dir: Seq<char>, x: Seq<char>) -> Seq<char> {
    dir + "/"@ + x
}

/// The generated per-session log path.
pub open spec fn default_log_path(dir: Seq<char>, prefix: Seq<char>) -> Seq<char> {
    dir + "/"@ + prefix + ".log"@
}

/// The generated per-task captured-output path.
pub open spec fn default_out_path(dir: Seq<char>, prefix: Seq<char>, cursor: nat) -> Seq<char> {
    dir + "/"@ + prefix + "_"@ + dec_digits(cursor) + ".out"@
}

/// The generated per-task report path.
pub open spec fn default_rep_path(dir: Seq<char>, prefix: Seq<char>, cursor: nat) -> Seq<char> {
    dir + "/"@ + prefix + "_"@ + dec_digits(cursor) + ".rep"@
}

/// The log path a task ends up with: its own entry placed under `dir`,
/// or the generated one.
pub open spec fn log_path_of(
    cfg: Seq<(Seq<char>, Seq<char>)>,
    dir: Seq<char>,
    prefix: Seq<char>,
) -> Seq<char> {
    if kv_has(cfg, "log"@) {
        joined(dir, kv_value(cfg, "log"@))
    } else {
        default_log_path(dir, prefix)
    }
}

/// The captured-output path a task ends up with.
pub open spec fn out_path_of(
    cfg: Seq<(Seq<char>, Seq<char>)>,
    dir: Seq<char>,
    prefix: Seq<char>,
    cursor: nat,
) -> Seq<char> {
    if kv_has(cfg, "stdout"@) {
        joined(dir, kv_value(cfg, "stdout"@))
    } else {
        default_out_path(dir, prefix, cursor)
    }
}

/// The report path a task ends up with.
pub open spec fn rep_path_of(
    cfg: Seq<(Seq<char>, Seq<char>)>,
    dir: Seq<char>,
    prefix: Seq<char>,
    cursor: nat,
) -> Seq<char> {
    if kv_has(cfg, "report"@) {
        joined(dir, kv_value(cfg, "report"@))
    } else {
        default_rep_path(dir, prefix, cursor)
    }
}

/// A task's options after the log, stdout and report entries have been
/// bound to their final paths.
pub open spec fn converted_config(
    cfg: Seq<(Seq<char>, Seq<char>)>,
    dir: Seq<char>,
    prefix: Seq<char>,
    cursor: nat,
) -> Seq<(Seq<char>, Seq<char>)> {
    kv_updated(
        kv_updated(
            kv_updated(cfg, "log"@, log_path_of(cfg, dir, prefix)),
            "stdout"@,
            out_path_of(cfg, dir, prefix, cursor),
        ),
        "report"@,
        rep_path_of(cfg, dir, prefix, cursor),
    )
}

/// The task after `convert_task`: options converted, all else untouched.
pub open spec fn task_converted(
    pre: &NsjailTask,
    post: &NsjailTask,
    dir: Seq<char>,
    prefix: Seq<char>,
    cursor: nat,
) -> bool {
    kv_deep(post.config@) == converted_config(kv_deep(pre.config@), dir, prefix, cursor)
        && post.meta_data == pre.meta_data && post.mount == pre.mount && post.exec_path
        == pre.exec_path && post.args == pre.args && post.cwd == pre.cwd && post.envs == pre.envs
}

fn join_under(dir: &String, x: &String) -> (r: String)
    ensures
        r@ == joined(dir@, x@),
{
    let mut r = dir.clone();
    r.append("/");
    r.append(x.as_str());
    proof {
        assert(r@ =~= joined(dir@, x@));
    }
    r
}

/// How one attempt to execute a task through the sandbox went: the
/// executor could not be spawned at all, or it ran and its report file
/// read back as the given text (or could not be read).
pub enum ExecOutcome {
    SpawnFailed,
    Ran { report: Option<String> },
}

/// The result a task run must decode to, given how execution went and
/// which report and output paths the task was converted to.
pub open spec fn run_result_ok(
    outcome: &ExecOutcome,
    rep: Seq<char>,
    out: Seq<char>,
    r: &JudgerResult,
) -> bool {
    match outcome {
        ExecOutcome::SpawnFailed => is_default_result(r),
        ExecOutcome::Ran { report } => match report {
            Some(t) => parsed_report_ok(t@, rep, out, r),
            None => is_default_result(r),
        },
    }
}

/// Relies on random_string::generate: a string of exactly the requested
/// six characters, each drawn from the lowercase charset handed to it;
/// it panics only on an empty charset, which this call never passes.
#[verifier::external_body]
fn random_prefix() -> (r: String)
    ensures
        r@.len() == 6,
        forall|i: int| 0 <= i < r@.len() ==> 97 <= #[trigger] r@[i] as u32 <= 122,
{
    random_string::generate(6, "abcdefghigklmnopqrstuvwxyz")
}

/// The orchestrator of one judging session: a task sequence, the
/// registered directory handles, a cursor over the tasks, and a random
/// per-session prefix that namespaces generated file names.
pub struct NsjailJudger {
    pub config: NsjailConfig,
    pub dirs: Vec<DirHandle>,
    pub user_dir: i32,
    pub output_dir: i32,
    pub cursor: usize,
    pub prefix: String,
}

impl NsjailJudger {
    /// A fresh session over a copy of `config`, with a new random prefix.
    pub fn new(config: &NsjailConfig) -> (r: Self)
        ensures
            r.config.rootfs_path@ == config.rootfs_path@,
            r.config.task_config@.len() == config.task_config@.len(),
            forall|i: int|
                0 <= i < config.task_config@.len() ==> task_eq(
                    &r.config.task_config@[i],
                    &config.task_config@[i],
                ),
            r.dirs@.len() == 0,
            r.user_dir == -1,
            r.output_dir == -1,
            r.cursor == 0,
            r.prefix@.len() == 6,
            forall|i: int| 0 <= i < r.prefix@.len() ==> 97 <= #[trigger] r.prefix@[i] as u32
                <= 122,
    {
        let mut tasks: Vec<NsjailTask> = Vec::new();
        let mut i: usize = 0;
        while i < config.task_config.len()
            invariant
                0 <= i <= config.task_config@.len(),
                tasks@.len() == i,
                forall|j: int|
                    0 <= j < i ==> task_eq(&tasks@[j], &config.task_config@[j]),
            decreases config.task_config@.len() - i,
        {
            let t = clone_task(&config.task_config[i]);
            tasks.push(t);
            i = i + 1;
        }
        NsjailJudger {
            config: NsjailConfig {
                rootfs_path: config.rootfs_path.clone(),
                task_config: tasks,
            },
            dirs: Vec::new(),
            user_dir: -1,
            output_dir: -1,
            cursor: 0,
            prefix: random_prefix(),
        }
    }

    /// Register a directory handle and append its bind directive to the
    /// mount list of every task.
    pub fn mount_all(&mut self, dir: DirHandle, target: &String)
        ensures
            final(self).dirs@.len() == old(self).dirs@.len() + 1,
            forall|i: int|
                0 <= i < old(self).dirs@.len() ==> final(self).dirs@[i] == old(self).dirs@[i],
            dir.sp_bound_to(&final(self).dirs@[old(self).dirs@.len() as int], target@),
            final(self).config.task_config@.len() == old(self).config.task_config@.len(),
            forall|i: int|
                #![trigger final(self).config.task_config@[i]]
                0 <= i < old(self).config.task_config@.len() ==> {
                    let pre = old(self).config.task_config@[i];
                    let post = final(self).config.task_config@[i];
                    &&& str_views(post.mount@) == str_views(pre.mount@).push(
                        bind_text(dir.sp_read_only(), dir.sp_src(), target@),
                    )
                    &&& post.config == pre.config
                    &&& post.meta_data == pre.meta_data
                    &&& post.exec_path == pre.exec_path
                    &&& post.args == pre.args
                    &&& post.cwd == pre.cwd
                    &&& post.envs == pre.envs
                },
            final(self).config.rootfs_path == old(self).config.rootfs_path,
            final(self).user_dir == old(self).user_dir,
            final(self).output_dir == old(self).output_dir,
            final(self).cursor == old(self).cursor,
            final(self).prefix == old(self).prefix,
    {
        let ghost bview = bind_text(dir.sp_read_only(), dir.sp_src(), target@);
        let mut dir = dir;
        let bind = dir.get_bind_string(target);
        let n = self.config.task_config.len();
        let mut i: usize = 0;
        while i < n
            invariant
                n == self.config.task_config@.len(),
                n == old(self).config.task_config@.len(),
                0 <= i <= n,
                bind@ == bview,
                forall|j: int|
                    i <= j < n ==> self.config.task_config@[j] == old(self).config.task_config@[j],
                forall|j: int|
                    #![trigger self.config.task_config@[j]]
                    0 <= j < i ==> {
                        let pre = old(self).config.task_config@[j];
                        let post = self.config.task_config@[j];
                        &&& str_views(post.mount@) == str_views(pre.mount@).push(bview)
                        &&& post.config == pre.config
                        &&& post.meta_data == pre.meta_data
                        &&& post.exec_path == pre.exec_path
                        &&& post.args == pre.args
                        &&& post.cwd == pre.cwd
                        &&& post.envs == pre.envs
                    },
                self.config.rootfs_path == old(self).config.rootfs_path,
                self.dirs@ == old(self).dirs@,
                self.user_dir == old(self).user_dir,
                self.output_dir == old(self).output_dir,
                self.cursor == old(self).cursor,
                self.prefix == old(self).prefix,
            decreases n - i,
        {
            let ghost pre_tasks = self.config.task_config@;
            let mut task = self.config.task_config.remove(i);
            let ghost mview = task.mount@;
            task.mount.push(bind.clone());
            proof {
                assert(str_views(task.mount@) =~= str_views(mview).push(bview));
            }
            self.config.task_config.insert(i, task);
            proof {
                assert forall|j: int|
                    0 <= j < n && j != i implies self.config.task_config@[j] == pre_tasks[j] by {}
                assert(str_views(self.config.task_config@[i as int].mount@) == str_views(
                    pre_tasks[i as int].mount@,
                ).push(bview));
            }
            i = i + 1;
        }
        self.dirs.push(dir);
    }

    /// Default the log, stdout and report entries of `task` under `dir`,
    /// naming generated files by the session `prefix` and the task
    /// ordinal `cursor`; say which captured-output and report paths the
    /// task ended up with.
    pub fn convert_task(
        dir: &String,
        task: &mut NsjailTask,
        prefix: &String,
        cursor: usize,
    ) -> (r: (String, String))
        ensures
            task_converted(old(task), final(task), dir@, prefix@, cursor as nat),
            r.0@ == out_path_of(kv_deep(old(task).config@), dir@, prefix@, cursor as nat),
            r.1@ == rep_path_of(kv_deep(old(task).config@), dir@, prefix@, cursor as nat),
    {
        proof {
            reveal_strlit("log");
            reveal_strlit("stdout");
            reveal_strlit("report");
            assert("log"@.len() == 3);
            assert("stdout"@.len() == 6);
            assert("report"@.len() == 6);
            assert("stdout"@[0] == 's');
            assert("report"@[0] == 'r');
            assert("log"@ != "stdout"@);
            assert("log"@ != "report"@);
            assert("stdout"@ != "report"@);
        }
        let ghost cfg0 = kv_deep(task.config@);
        let log_path = match kv_get(&task.config, "log") {
            Some(x) => join_under(dir, x),
            None => {
                let mut p = dir.clone();
                p.append("/");
                p.append(prefix.as_str());
                p.append(".log");
                proof {
                    assert(p@ =~= default_log_path(dir@, prefix@));
                }
                p
            },
        };
        proof {
            assert(log_path@ == log_path_of(cfg0, dir@, prefix@));
        }
        kv_set(&mut task.config, "log", log_path);
        let ghost cfg1 = kv_deep(task.config@);
        proof {
            lemma_kv_updated_frame(cfg0, "log"@, log_path_of(cfg0, dir@, prefix@), "stdout"@);
            lemma_kv_updated_frame(cfg0, "log"@, log_path_of(cfg0, dir@, prefix@), "report"@);
        }
        let out_path = match kv_get(&task.config, "stdout") {
            Some(x) => join_under(dir, x),
            None => {
                let mut p = dir.clone();
                p.append("/");
                p.append(prefix.as_str());
                p.append("_");
                append_decimal(&mut p, cursor as u64);
                p.append(".out");
                proof {
                    assert(p@ =~= default_out_path(dir@, prefix@, cursor as nat));
                }
                p
            },
        };
        proof {
            assert(out_path@ == out_path_of(cfg0, dir@, prefix@, cursor as nat));
        }
        kv_set(&mut task.config, "stdout", out_path.clone());
        let ghost cfg2 = kv_deep(task.config@);
        proof {
            lemma_kv_updated_frame(
                cfg1,
                "stdout"@,
                out_path_of(cfg0, dir@, prefix@, cursor as nat),
                "report"@,
            );
        }
        let rep_path = match kv_get(&task.config, "report") {
            Some(x) => join_under(dir, x),
            None => {
                let mut p = dir.clone();
                p.append("/");
                p.append(prefix.as_str());
                p.append("_");
                append_decimal(&mut p, cursor as u64);
                p.append(".rep");
                proof {
                    assert(p@ =~= default_rep_path(dir@, prefix@, cursor as nat));
                }
                p
            },
        };
        proof {
            assert(rep_path@ == rep_path_of(cfg0, dir@, prefix@, cursor as nat));
        }
        kv_set(&mut task.config, "report", rep_path.clone());
        proof {
            assert(kv_deep(task.config@) == converted_config(cfg0, dir@, prefix@, cursor as nat));
        }
        (out_path, rep_path)
    }

    /// Decode the run of the task at `cursor`, whose execution went as
    /// `outcome` says, after defaulting its file entries under the
    /// working directory. A failed spawn or an unreadable report yields
    /// the sentinel result.
    pub fn run(&mut self, cursor: usize, outcome: &ExecOutcome) -> (r: JudgerResult)
        requires
            cursor < old(self).config.task_config@.len(),
        ensures
            final(self).config.task_config@.len() == old(self).config.task_config@.len(),
            task_converted(
                &old(self).config.task_config@[cursor as int],
                &final(self).config.task_config@[cursor as int],
                "."@,
                old(self).prefix@,
                old(self).cursor as nat,
            ),
            forall|i: int|
                0 <= i < old(self).config.task_config@.len() && i != cursor ==> final(self).config.task_config@[i] == old(self).config.task_config@[i],
            final(self).config.rootfs_path == old(self).config.rootfs_path,
            final(self).dirs@ == old(self).dirs@,
            final(self).user_dir == old(self).user_dir,
            final(self).output_dir == old(self).output_dir,
            final(self).cursor == old(self).cursor,
            final(self).prefix == old(self).prefix,
            run_result_ok(
                outcome,
                rep_path_of(
                    kv_deep(old(self).config.task_config@[cursor as int].config@),
                    "."@,
                    old(self).prefix@,
                    old(self).cursor as nat,
                ),
                out_path_of(
                    kv_deep(old(self).config.task_config@[cursor as int].config@),
                    "."@,
                    old(self).prefix@,
                    old(self).cursor as nat,
                ),
                &r,
            ),
    {
        let ghost pre_tasks = self.config.task_config@;
        let mut task = self.config.task_config.remove(cursor);
        let dot = String::from_str(".");
        let paths = Self::convert_task(&dot, &mut task, &self.prefix, self.cursor);
        self.config.task_config.insert(cursor, task);
        proof {
            assert forall|j: int|
                0 <= j < pre_tasks.len() && j != cursor implies self.config.task_config@[j]
                == pre_tasks[j] by {}
        }
        let (out_path, rep_path) = paths;
        match outcome {
            ExecOutcome::SpawnFailed => JudgerResult::default(),
            ExecOutcome::Ran { report } => match report {
                Some(t) => JudgerResult::from_report(t.as_str(), &rep_path, &out_path),
                None => JudgerResult::default(),
            },
        }
    }

    /// Default the file entries of the task at `cursor` and build its
    /// executor argument vector, together with the captured-output and
    /// report paths: everything a caller needs to spawn the executor and
    /// hand the outcome back to `run`.
    pub fn run_prepare(&mut self, cursor: usize) -> (r: (Vec<String>, String, String))
        requires
            cursor < old(self).config.task_config@.len(),
        ensures
            final(self).config.task_config@.len() == old(self).config.task_config@.len(),
            task_converted(
                &old(self).config.task_config@[cursor as int],
                &final(self).config.task_config@[cursor as int],
                "."@,
                old(self).prefix@,
                old(self).cursor as nat,
            ),
            forall|i: int|
                0 <= i < old(self).config.task_config@.len() && i != cursor ==> final(self).config.task_config@[i] == old(self).config.task_config@[i],
            final(self).config.rootfs_path == old(self).config.rootfs_path,
            final(self).dirs@ == old(self).dirs@,
            final(self).user_dir == old(self).user_dir,
            final(self).output_dir == old(self).output_dir,
            final(self).cursor == old(self).cursor,
            final(self).prefix == old(self).prefix,
            str_views(r.0@) == args_spec(
                &final(self).config.task_config@[cursor as int],
                old(self).config.rootfs_path@,
            ),
            r.1@ == out_path_of(
                kv_deep(old(self).config.task_config@[cursor as int].config@),
                "."@,
                old(self).prefix@,
                old(self).cursor as nat,
            ),
            r.2@ == rep_path_of(
                kv_deep(old(self).config.task_config@[cursor as int].config@),
                "."@,
                old(self).prefix@,
                old(self).cursor as nat,
            ),
    {
        let ghost pre_tasks = self.config.task_config@;
        let mut task = self.config.task_config.remove(cursor);
        let dot = String::from_str(".");
        let paths = Self::convert_task(&dot, &mut task, &self.prefix, self.cursor);
        let argv = task.to_args(&self.config.rootfs_path);
        self.config.task_config.insert(cursor, task);
        proof {
            assert forall|j: int|
                0 <= j < pre_tasks.len() && j != cursor implies self.config.task_config@[j]
                == pre_tasks[j] by {}
        }
        let (out_path, rep_path) = paths;
        (argv, out_path, rep_path)
    }

    /// Run the task at the cursor against `outcome`, then advance the
    /// cursor by one.
    pub fn run_step(&mut self, outcome: &ExecOutcome) -> (r: JudgerResult)
        requires
            old(self).cursor < old(self).config.task_config@.len(),
        ensures
            final(self).config.task_config@.len() == old(self).config.task_config@.len(),
            task_converted(
                &old(self).config.task_config@[old(self).cursor as int],
                &final(self).config.task_config@[old(self).cursor as int],
                "."@,
                old(self).prefix@,
                old(self).cursor as nat,
            ),
            forall|i: int|
                0 <= i < old(self).config.task_config@.len() && i != old(self).cursor ==> final(self).config.task_config@[i] == old(self).config.task_config@[i],
            final(self).config.rootfs_path == old(self).config.rootfs_path,
            final(self).dirs@ == old(self).dirs@,
            final(self).user_dir == old(self).user_dir,
            final(self).output_dir == old(self).output_dir,
            final(self).cursor == old(self).cursor + 1,
            final(self).prefix == old(self).prefix,
            run_result_ok(
                outcome,
                rep_path_of(
                    kv_deep(old(self).config.task_config@[old(self).cursor as int].config@),
                    "."@,
                    old(self).prefix@,
                    old(self).cursor as nat,
                ),
                out_path_of(
                    kv_deep(old(self).config.task_config@[old(self).cursor as int].config@),
                    "."@,
                    old(self).prefix@,
                    old(self).cursor as nat,
                ),
                &r,
            ),
    {
        let c = self.cursor;
        let _n: usize = self.config.task_config.len();
        let result = self.run(c, outcome);
        self.cursor = c + 1;
        result
    }

    /// Run the whole task sequence from the start, stopping at the
    /// first result that reports a non-zero exit code or signal; that
    /// failing result is still the last element returned. `outcomes[i]`
    /// says how executing task `i` went; entries past the stop point are
    /// never consulted.
    pub fn run_all(&mut self, outcomes: &Vec<ExecOutcome>) -> (r: Vec<JudgerResult>)
        requires
            outcomes@.len() >= old(self).config.task_config@.len(),
        ensures
            r@.len() <= old(self).config.task_config@.len(),
            final(self).cursor == r@.len(),
            forall|i: int| 0 <= i < r@.len() - 1 ==> !spec_task_failed(&r@[i]),
            r@.len() < old(self).config.task_config@.len() ==> r@.len() > 0 && spec_task_failed(
                &r@[r@.len() - 1],
            ),
            forall|i: int|
                0 <= i < r@.len() ==> run_result_ok(
                    &outcomes@[i],
                    rep_path_of(
                        kv_deep(old(self).config.task_config@[i].config@),
                        "."@,
                        old(self).prefix@,
                        i as nat,
                    ),
                    out_path_of(
                        kv_deep(old(self).config.task_config@[i].config@),
                        "."@,
                        old(self).prefix@,
                        i as nat,
                    ),
                    &r@[i],
                ),
            final(self).config.task_config@.len() == old(self).config.task_config@.len(),
            forall|i: int|
                0 <= i < r@.len() ==> task_converted(
                    &old(self).config.task_config@[i],
                    &final(self).config.task_config@[i],
                    "."@,
                    old(self).prefix@,
                    i as nat,
                ),
            forall|i: int|
                r@.len() <= i < old(self).config.task_config@.len() ==> final(self).config.task_config@[i] == old(self).config.task_config@[i],
            final(self).config.rootfs_path == old(self).config.rootfs_path,
            final(self).dirs@ == old(self).dirs@,
            final(self).prefix == old(self).prefix,
    {
        let mut ret: Vec<JudgerResult> = Vec::new();
        self.cursor = 0;
        let n = self.config.task_config.len();
        let mut stopped = false;
        while self.cursor < n && !stopped
            invariant
                n == old(self).config.task_config@.len(),
                n == self.config.task_config@.len(),
                outcomes@.len() >= n,
                self.cursor == ret@.len(),
                ret@.len() <= n,
                !stopped ==> forall|i: int| 0 <= i < ret@.len() ==> !spec_task_failed(&ret@[i]),
                stopped ==> ret@.len() > 0 && spec_task_failed(&ret@[ret@.len() - 1]) && (forall|
                    i: int,
                | 0 <= i < ret@.len() - 1 ==> !spec_task_failed(&ret@[i])),
                forall|i: int|
                    0 <= i < ret@.len() ==> run_result_ok(
                        &outcomes@[i],
                        rep_path_of(
                            kv_deep(old(self).config.task_config@[i].config@),
                            "."@,
                            old(self).prefix@,
                            i as nat,
                        ),
                        out_path_of(
                            kv_deep(old(self).config.task_config@[i].config@),
                            "."@,
                            old(self).prefix@,
                            i as nat,
                        ),
                        &ret@[i],
                    ),
                forall|i: int|
                    0 <= i < ret@.len() ==> task_converted(
                        &old(self).config.task_config@[i],
                        &self.config.task_config@[i],
                        "."@,
                        old(self).prefix@,
                        i as nat,
                    ),
                forall|i: int|
                    ret@.len() <= i < n ==> self.config.task_config@[i] == old(self).config.task_config@[i],
                self.config.rootfs_path == old(self).config.rootfs_path,
                self.dirs@ == old(self).dirs@,
                self.prefix == old(self).prefix,
            decreases n - self.cursor,
        {
            let outc = &outcomes[self.cursor];
            let tmp = self.run_step(outc);
            if task_failed(&tmp) {
                stopped = true;
            }
            ret.push(tmp);
        }
        ret
    }
}

} // verus!
