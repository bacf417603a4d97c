//! Directory provisioning: the state machines of the two directory
//! backends. A handle decides what filesystem work is due and how its
//! state moves; performing the work (directory syscalls, the mount) is
//! the caller's part, whose outcome is handed back in.
use vstd::prelude::*;
use vstd::string::StringExecFns;
use crate::text::{append_decimal, dec_digits};

verus! {

/// Configuration of a bind-mounted ordinary directory. The permissions
/// are a mode to apply after creation, if any.
pub struct LocalConfig {
    pub create_if_not_exist: bool,
    pub create_recursively: bool,
    pub clean: bool,
    pub path: String,
    pub permissions: Option<u32>,
    pub read_only: bool,
}

impl Clone for LocalConfig {
    fn clone(&self) -> (r: Self)
        ensures
            r == *self,
    {
        LocalConfig {
            create_if_not_exist: self.create_if_not_exist,
            create_recursively: self.create_recursively,
            clean: self.clean,
            path: self.path.clone(),
            permissions: self.permissions,
            read_only: self.read_only,
        }
    }
}

impl Default for LocalConfig {
    /// An existing directory, exposed read-only, never created and never
    /// cleaned by the handle.
    fn default() -> (r: Self)
        ensures
            r.create_if_not_exist == false,
            r.create_recursively == true,
            r.clean == false,
            r.path@ == Seq::<char>::empty(),
            r.permissions is None,
            r.read_only == true,
    {
        LocalConfig {
            create_if_not_exist: false,
            create_recursively: true,
            clean: false,
            path: String::new(),
            permissions: None,
            read_only: true,
        }
    }
}

impl LocalConfig {
    /// The default configuration pointed at `path`.
    pub fn new(path: String) -> (r: Self)
        ensures
            r.path == path,
            r.create_if_not_exist == false,
            r.create_recursively == true,
            r.clean == false,
            r.permissions is None,
            r.read_only == true,
    {
        let mut r = Self::default();
        r.path = path;
        r
    }
}

/// Configuration of an ephemeral, quota-bounded directory: size in
/// mebibytes, an inode quota, the mount point, mount flags and the mode
/// given to the created directory.
pub struct TmpfsConfig {
    pub size: usize,
    pub inodes: usize,
    pub path: String,
    pub flag: u64,
    pub permissions: u32,
    pub read_only: bool,
}

impl Clone for TmpfsConfig {
    fn clone(&self) -> (r: Self)
        ensures
            r == *self,
    {
        TmpfsConfig {
            size: self.size,
            inodes: self.inodes,
            path: self.path.clone(),
            flag: self.flag,
            permissions: self.permissions,
            read_only: self.read_only,
        }
    }
}

impl Default for TmpfsConfig {
    /// A 64 MiB, 1024-inode writable ephemeral directory.
    fn default() -> (r: Self)
        ensures
            r.size == 64usize,
            r.inodes == 1024usize,
            r.path@ == Seq::<char>::empty(),
            r.flag == 0u64,
            r.permissions == 777u32,
            r.read_only == false,
    {
        TmpfsConfig {
            size: 64,
            inodes: 1024,
            path: String::new(),
            flag: 0,
            permissions: 777,
            read_only: false,
        }
    }
}

impl TmpfsConfig {
    /// The default configuration mounted at `path`.
    pub fn new(path: String) -> (r: Self)
        ensures
            r.path == path,
            r.size == 64usize,
            r.inodes == 1024usize,
            r.flag == 0u64,
            r.permissions == 777u32,
            r.read_only == false,
    {
        let mut r = Self::default();
        r.path = path;
        r
    }
}

/// A bind-mount directory handle over an ordinary directory.
pub struct Local {
    pub config: LocalConfig,
    pub src: String,
    pub target: Option<String>,
    pub created: bool,
    pub mounted: bool,
}

/// An ephemeral-filesystem directory handle.
pub struct Tmpfs {
    pub config: TmpfsConfig,
    pub src: String,
    pub target: Option<String>,
    pub created: bool,
    pub mounted: bool,
}

impl From<&LocalConfig> for Local {
    /// A fresh, unprovisioned handle whose source is the configured path.
    fn from(config: &LocalConfig) -> (r: Self) {
        Local {
            config: config.clone(),
            src: config.path.clone(),
            target: None,
            created: false,
            mounted: false,
        }
    }
}

impl vstd::std_specs::convert::FromSpecImpl<&LocalConfig> for Local {
    open spec fn obeys_from_spec() -> bool {
        true
    }

    open spec fn from_spec(v: &LocalConfig) -> Self {
        Local { config: *v, src: v.path, target: None, created: false, mounted: false }
    }
}

impl From<&TmpfsConfig> for Tmpfs {
    /// A fresh, unprovisioned handle whose source is the configured path.
    fn from(config: &TmpfsConfig) -> (r: Self) {
        Tmpfs {
            config: config.clone(),
            src: config.path.clone(),
            target: None,
            created: false,
            mounted: false,
        }
    }
}

impl vstd::std_specs::convert::FromSpecImpl<&TmpfsConfig> for Tmpfs {
    open spec fn obeys_from_spec() -> bool {
        true
    }

    open spec fn from_spec(v: &TmpfsConfig) -> Self {
        Tmpfs { config: *v, src: v.path, target: None, created: false, mounted: false }
    }
}

/// Filesystem work a directory handle asks its caller to perform. The
/// handle only decides; the caller carries the work out and reports how
/// it went.
pub enum DirAction {
    /// No filesystem work at all.
    Nothing,
    /// Ensure a directory at `path`: create it (recursively or flat)
    /// when `create` is set, then apply `mode_of` when given.
    MakeDir { path: String, create: bool, recursive: bool, mode_of: Option<u32> },
    /// Make the directory at `dir` when `make_dir` is set and give it
    /// `mode`, then mount an ephemeral filesystem at `mount_path` with
    /// the options string `data` and the given flags.
    MountTmpfs { dir: String, make_dir: bool, mode: u32, mount_path: String, data: String, flag: u64 },
    /// Recursively delete the tree at `path`.
    RemoveTree { path: String },
    /// Unmount the filesystem at `mount_path`, then recursively delete
    /// the tree at `dir`.
    UnmountRemove { mount_path: String, dir: String },
}

/// The bind directive handed to the sandbox executor for a directory.
pub open spec fn bind_text(ro: bool, src: Seq<char>, target: Seq<char>) -> Seq<char> {
    (if ro { "--bindmount_ro="@ } else { "--bindmount="@ }) + src + ":"@ + target
}

/// The options string an ephemeral mount is created with.
pub open spec fn tmpfs_data_text(size: nat, inodes: nat) -> Seq<char> {
    "size="@ + dec_digits(size) + "M,nr_inodes="@ + dec_digits(inodes)
}

/// What `create` asks of the caller for a bind-mount handle.
pub open spec fn local_create_action_ok(l: &Local, src_is_dir: bool, r: &DirAction) -> bool {
    if l.created || src_is_dir || !(l.config.create_if_not_exist || l.config.permissions is Some) {
        *r is Nothing
    } else {
        (r matches DirAction::MakeDir { path, create, recursive, mode_of } && path@ == l.src@
            && create == l.config.create_if_not_exist && recursive
            == l.config.create_recursively && mode_of == l.config.permissions)
    }
}

/// What `clean` asks of the caller for a bind-mount handle.
pub open spec fn local_clean_action_ok(l: &Local, r: &DirAction) -> bool {
    if l.created && l.config.clean {
        (r matches DirAction::RemoveTree { path } && path@ == l.src@)
    } else {
        *r is Nothing
    }
}

/// What `create` asks of the caller for an ephemeral handle.
pub open spec fn tmpfs_create_action_ok(t: &Tmpfs, src_is_dir: bool, r: &DirAction) -> bool {
    if t.created {
        *r is Nothing
    } else {
        (r matches DirAction::MountTmpfs { dir, make_dir, mode, mount_path, data, flag }
            && dir@ == t.src@ && make_dir == !src_is_dir && mode == t.config.permissions
            && mount_path@ == t.config.path@ && data@ == tmpfs_data_text(
            t.config.size as nat,
            t.config.inodes as nat,
        ) && flag == t.config.flag)
    }
}

/// What `clean` asks of the caller for an ephemeral handle.
pub open spec fn tmpfs_clean_action_ok(t: &Tmpfs, r: &DirAction) -> bool {
    if t.created {
        (r matches DirAction::UnmountRemove { mount_path, dir } && mount_path@ == t.config.path@
            && dir@ == t.src@)
    } else {
        *r is Nothing
    }
}

/// The capability set of a directory backend: provisioning, teardown,
/// and handing out bind directives. The filesystem work itself is the
/// caller's: `create` and `clean` take the outcome of the work that the
/// handle's action function asked for, and gate every state change on it.
pub trait BaseDir: Sized {
    /// Whether the backing storage has been provisioned by this handle.
    spec fn sp_created(&self) -> bool;

    /// Whether `create` needs filesystem work in the current state.
    spec fn sp_create_work(&self, src_is_dir: bool) -> bool;

    /// Whether `clean` tears anything down in the current state.
    spec fn sp_clean_work(&self) -> bool;

    /// The state after a successful `create`.
    spec fn sp_after_create(&self) -> Self;

    /// The state after a successful `clean`.
    spec fn sp_after_clean(&self) -> Self;

    /// How handing out a bind directive for `target` moves the state.
    spec fn sp_bound_to(&self, post: &Self, target: Seq<char>) -> bool;

    spec fn sp_src(&self) -> Seq<char>;

    spec fn sp_read_only(&self) -> bool;

    /// Provision the directory. `src_is_dir` reports whether the source
    /// already exists as a directory; `fs` reports the outcome of the
    /// requested filesystem work. Creating twice is a no-op that
    /// succeeds, whatever the backend.
    fn create(&mut self, src_is_dir: bool, fs: Result<(), String>) -> (r: Result<(), String>)
        ensures
            old(self).sp_created() ==> r is Ok && *final(self) == *old(self),
            !old(self).sp_created() && old(self).sp_create_work(src_is_dir) && fs is Err ==> r
                == fs && *final(self) == *old(self),
            !old(self).sp_created() && !(old(self).sp_create_work(src_is_dir) && fs is Err) ==> r
                is Ok && *final(self) == old(self).sp_after_create(),
    ;

    /// Tear the directory down. A handle that never created its storage,
    /// or is configured to keep it, changes nothing and succeeds.
    fn clean(&mut self, fs: Result<(), String>) -> (r: Result<(), String>)
        ensures
            !old(self).sp_clean_work() ==> r is Ok && *final(self) == *old(self),
            old(self).sp_clean_work() && fs is Err ==> r == fs && *final(self) == *old(self),
            old(self).sp_clean_work() && fs is Ok ==> r is Ok && *final(self) == old(
                self,
            ).sp_after_clean(),
    ;

    /// The source path of the handle.
    fn get_src(&self) -> (r: String)
        ensures
            r@ == self.sp_src(),
    ;

    /// Whether the handle is exposed read-only.
    fn read_only(&self) -> (r: bool)
        ensures
            r == self.sp_read_only(),
    ;

    /// The executor bind directive for `target`; marks the handle
    /// mounted and remembers the target.
    fn get_bind_string(&mut self, target: &String) -> (r: String)
        ensures
            old(self).sp_bound_to(final(self), target@),
            r@ == bind_text(old(self).sp_read_only(), old(self).sp_src(), target@),
    ;
}

impl Local {
    /// The filesystem work that `create` would gate its state change on.
    pub fn create_action(&self, src_is_dir: bool) -> (r: DirAction)
        ensures
            local_create_action_ok(self, src_is_dir, &r),
    {
        if self.created || src_is_dir {
            return DirAction::Nothing;
        }
        if !self.config.create_if_not_exist && self.config.permissions.is_none() {
            return DirAction::Nothing;
        }
        DirAction::MakeDir {
            path: self.src.clone(),
            create: self.config.create_if_not_exist,
            recursive: self.config.create_recursively,
            mode_of: self.config.permissions,
        }
    }

    /// The teardown work that `clean` would gate its state change on.
    pub fn clean_action(&self) -> (r: DirAction)
        ensures
            local_clean_action_ok(self, &r),
    {
        if self.created && self.config.clean {
            DirAction::RemoveTree { path: self.src.clone() }
        } else {
            DirAction::Nothing
        }
    }
}

impl Tmpfs {
    /// The filesystem work that `create` would gate its state change on.
    pub fn create_action(&self, src_is_dir: bool) -> (r: DirAction)
        ensures
            tmpfs_create_action_ok(self, src_is_dir, &r),
    {
        if self.created {
            return DirAction::Nothing;
        }
        let mut data = String::new();
        data.append("size=");
        append_decimal(&mut data, self.config.size as u64);
        data.append("M,nr_inodes=");
        append_decimal(&mut data, self.config.inodes as u64);
        proof {
            assert(data@ =~= tmpfs_data_text(self.config.size as nat, self.config.inodes as nat));
        }
        DirAction::MountTmpfs {
            dir: self.src.clone(),
            make_dir: !src_is_dir,
            mode: self.config.permissions,
            mount_path: self.config.path.clone(),
            data,
            flag: self.config.flag,
        }
    }

    /// The teardown work that `clean` would gate its state change on.
    pub fn clean_action(&self) -> (r: DirAction)
        ensures
            tmpfs_clean_action_ok(self, &r),
    {
        if self.created {
            DirAction::UnmountRemove {
                mount_path: self.config.path.clone(),
                dir: self.src.clone(),
            }
        } else {
            DirAction::Nothing
        }
    }
}

impl BaseDir for Local {
    open spec fn sp_created(&self) -> bool {
        self.created
    }

    open spec fn sp_create_work(&self, src_is_dir: bool) -> bool {
        !src_is_dir && (self.config.create_if_not_exist || self.config.permissions is Some)
    }

    open spec fn sp_clean_work(&self) -> bool {
        self.created && self.config.clean
    }

    open spec fn sp_after_create(&self) -> Self {
        Local {
            config: self.config,
            src: self.src,
            target: self.target,
            created: true,
            mounted: self.mounted,
        }
    }

    open spec fn sp_after_clean(&self) -> Self {
        Local {
            config: self.config,
            src: self.src,
            target: self.target,
            created: false,
            mounted: self.mounted,
        }
    }

    open spec fn sp_bound_to(&self, post: &Self, target: Seq<char>) -> bool {
        post.config == self.config && post.src == self.src && post.created == self.created
            && post.mounted == true && (post.target matches Some(t) && t@ == target)
    }

    open spec fn sp_src(&self) -> Seq<char> {
        self.src@
    }

    open spec fn sp_read_only(&self) -> bool {
        self.config.read_only
    }

    fn create(&mut self, src_is_dir: bool, fs: Result<(), String>) -> (r: Result<(), String>) {
        if self.created {
            return Ok(());
        }
        if !src_is_dir && (self.config.create_if_not_exist || self.config.permissions.is_some()) {
            if let Err(e) = fs {
                return Err(e);
            }
        }
        self.created = true;
        Ok(())
    }

    fn clean(&mut self, fs: Result<(), String>) -> (r: Result<(), String>) {
        if !self.created || !self.config.clean {
            return Ok(());
        }
        match fs {
            Ok(_) => {
                self.created = false;
                Ok(())
            },
            Err(e) => Err(e),
        }
    }

    fn get_src(&self) -> (r: String) {
        self.src.clone()
    }

    fn read_only(&self) -> (r: bool) {
        self.config.read_only
    }

    fn get_bind_string(&mut self, target: &String) -> (r: String) {
        self.target = Some(target.clone());
        self.mounted = true;
        let mut r = if self.config.read_only {
            String::from_str("--bindmount_ro=")
        } else {
            String::from_str("--bindmount=")
        };
        r.append(self.src.as_str());
        r.append(":");
        r.append(target.as_str());
        proof {
            assert(r@ =~= bind_text(self.config.read_only, self.src@, target@));
        }
        r
    }
}

impl BaseDir for Tmpfs {
    open spec fn sp_created(&self) -> bool {
        self.created
    }

    open spec fn sp_create_work(&self, src_is_dir: bool) -> bool {
        true
    }

    open spec fn sp_clean_work(&self) -> bool {
        self.created
    }

    open spec fn sp_after_create(&self) -> Self {
        Tmpfs {
            config: self.config,
            src: self.src,
            target: self.target,
            created: true,
            mounted: self.mounted,
        }
    }

    open spec fn sp_after_clean(&self) -> Self {
        Tmpfs {
            config: self.config,
            src: self.src,
            target: self.target,
            created: false,
            mounted: self.mounted,
        }
    }

    open spec fn sp_bound_to(&self, post: &Self, target: Seq<char>) -> bool {
        post.config == self.config && post.src == self.src && post.created == self.created
            && post.mounted == true && (post.target matches Some(t) && t@ == target)
    }

    open spec fn sp_src(&self) -> Seq<char> {
        self.src@
    }

    open spec fn sp_read_only(&self) -> bool {
        self.config.read_only
    }

    fn create(&mut self, src_is_dir: bool, fs: Result<(), String>) -> (r: Result<(), String>) {
        if self.created {
            return Ok(());
        }
        if let Err(e) = fs {
            return Err(e);
        }
        self.created = true;
        Ok(())
    }

    fn clean(&mut self, fs: Result<(), String>) -> (r: Result<(), String>) {
        if !self.created {
            return Ok(());
        }
        match fs {
            Ok(_) => {
                self.created = false;
                Ok(())
            },
            Err(e) => Err(e),
        }
    }

    fn get_src(&self) -> (r: String) {
        self.src.clone()
    }

    fn read_only(&self) -> (r: bool) {
        self.config.read_only
    }

    fn get_bind_string(&mut self, target: &String) -> (r: String) {
        self.target = Some(target.clone());
        self.mounted = true;
        let mut r = if self.config.read_only {
            String::from_str("--bindmount_ro=")
        } else {
            String::from_str("--bindmount=")
        };
        r.append(self.src.as_str());
        r.append(":");
        r.append(target.as_str());
        proof {
            assert(r@ =~= bind_text(self.config.read_only, self.src@, target@));
        }
        r
    }
}

/// The closed set of directory backends, so that one judger can hold a
/// mixed list of handles.
pub enum DirHandle {
    Bind(Local),
    Ephemeral(Tmpfs),
}

impl DirHandle {
    /// The filesystem work that `create` would gate its state change on.
    pub fn create_action(&self, src_is_dir: bool) -> (r: DirAction)
        ensures
            (self matches DirHandle::Bind(l) ==> local_create_action_ok(l, src_is_dir, &r)),
            (self matches DirHandle::Ephemeral(t) ==> tmpfs_create_action_ok(t, src_is_dir, &r)),
    {
        match self {
            DirHandle::Bind(l) => l.create_action(src_is_dir),
            DirHandle::Ephemeral(t) => t.create_action(src_is_dir),
        }
    }

    /// The teardown work that `clean` would gate its state change on.
    pub fn clean_action(&self) -> (r: DirAction)
        ensures
            (self matches DirHandle::Bind(l) ==> local_clean_action_ok(l, &r)),
            (self matches DirHandle::Ephemeral(t) ==> tmpfs_clean_action_ok(t, &r)),
    {
        match self {
            DirHandle::Bind(l) => l.clean_action(),
            DirHandle::Ephemeral(t) => t.clean_action(),
        }
    }
}

impl BaseDir for DirHandle {
    open spec fn sp_created(&self) -> bool {
        match self {
            DirHandle::Bind(l) => l.sp_created(),
            DirHandle::Ephemeral(t) => t.sp_created(),
        }
    }

    open spec fn sp_create_work(&self, src_is_dir: bool) -> bool {
        match self {
            DirHandle::Bind(l) => l.sp_create_work(src_is_dir),
            DirHandle::Ephemeral(t) => t.sp_create_work(src_is_dir),
        }
    }

    open spec fn sp_clean_work(&self) -> bool {
        match self {
            DirHandle::Bind(l) => l.sp_clean_work(),
            DirHandle::Ephemeral(t) => t.sp_clean_work(),
        }
    }

    open spec fn sp_after_create(&self) -> Self {
        match self {
            DirHandle::Bind(l) => DirHandle::Bind(l.sp_after_create()),
            DirHandle::Ephemeral(t) => DirHandle::Ephemeral(t.sp_after_create()),
        }
    }

    open spec fn sp_after_clean(&self) -> Self {
        match self {
            DirHandle::Bind(l) => DirHandle::Bind(l.sp_after_clean()),
            DirHandle::Ephemeral(t) => DirHandle::Ephemeral(t.sp_after_clean()),
        }
    }

    open spec fn sp_bound_to(&self, post: &Self, target: Seq<char>) -> bool {
        match self {
            DirHandle::Bind(l) => (post matches DirHandle::Bind(pl) && l.sp_bound_to(pl, target)),
            DirHandle::Ephemeral(t) => (post matches DirHandle::Ephemeral(pt) && t.sp_bound_to(
                pt,
                target,
            )),
        }
    }

    open spec fn sp_src(&self) -> Seq<char> {
        match self {
            DirHandle::Bind(l) => l.sp_src(),
            DirHandle::Ephemeral(t) => t.sp_src(),
        }
    }

    open spec fn sp_read_only(&self) -> bool {
        match self {
            DirHandle::Bind(l) => l.sp_read_only(),
            DirHandle::Ephemeral(t) => t.sp_read_only(),
        }
    }

    fn create(&mut self, src_is_dir: bool, fs: Result<(), String>) -> (r: Result<(), String>) {
        match self {
            DirHandle::Bind(l) => l.create(src_is_dir, fs),
            DirHandle::Ephemeral(t) => t.create(src_is_dir, fs),
        }
    }

    fn clean(&mut self, fs: Result<(), String>) -> (r: Result<(), String>) {
        match self {
            DirHandle::Bind(l) => l.clean(fs),
            DirHandle::Ephemeral(t) => t.clean(fs),
        }
    }

    fn get_src(&self) -> (r: String) {
        match self {
            DirHandle::Bind(l) => l.get_src(),
            DirHandle::Ephemeral(t) => t.get_src(),
        }
    }

    fn read_only(&self) -> (r: bool) {
        match self {
            DirHandle::Bind(l) => l.read_only(),
            DirHandle::Ephemeral(t) => t.read_only(),
        }
    }

    fn get_bind_string(&mut self, target: &String) -> (r: String) {
        match self {
            DirHandle::Bind(l) => l.get_bind_string(target),
            DirHandle::Ephemeral(t) => t.get_bind_string(target),
        }
    }
}

} // verus!
