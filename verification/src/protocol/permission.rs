//! Permissions and the profiles that grant or deny them.

use crate::text;
use vstd::prelude::*;

verus! {

/// What a tool, a plugin or a session may do.
#[derive(Debug, PartialEq, Eq, Hash)]
pub enum PermissionType {
    FilesystemRead,
    FilesystemWrite,
    Network,
    NetworkGithub,
    NetworkGitlab,
    NetworkApi,
    ShellExec,
    ShellInstall,
    ScreenCapture,
    InputControl,
    WindowInspect,
    ClipboardRead,
    ClipboardWrite,
    /// A permission that a plugin defines.
    Other(String),
}

/// A permission, with the name of a custom one as plain text.
pub enum PermissionView {
    FilesystemRead,
    FilesystemWrite,
    Network,
    NetworkGithub,
    NetworkGitlab,
    NetworkApi,
    ShellExec,
    ShellInstall,
    ScreenCapture,
    InputControl,
    WindowInspect,
    ClipboardRead,
    ClipboardWrite,
    Other(Seq<char>),
}

impl View for PermissionType {
    type V = PermissionView;

    open spec fn view(&self) -> PermissionView {
        match *self {
            PermissionType::FilesystemRead => PermissionView::FilesystemRead,
            PermissionType::FilesystemWrite => PermissionView::FilesystemWrite,
            PermissionType::Network => PermissionView::Network,
            PermissionType::NetworkGithub => PermissionView::NetworkGithub,
            PermissionType::NetworkGitlab => PermissionView::NetworkGitlab,
            PermissionType::NetworkApi => PermissionView::NetworkApi,
            PermissionType::ShellExec => PermissionView::ShellExec,
            PermissionType::ShellInstall => PermissionView::ShellInstall,
            PermissionType::ScreenCapture => PermissionView::ScreenCapture,
            PermissionType::InputControl => PermissionView::InputControl,
            PermissionType::WindowInspect => PermissionView::WindowInspect,
            PermissionType::ClipboardRead => PermissionView::ClipboardRead,
            PermissionType::ClipboardWrite => PermissionView::ClipboardWrite,
            PermissionType::Other(name) => PermissionView::Other(name@),
        }
    }
}

impl PermissionType {
    /// Whether two permissions are the same.
    pub fn same(&self, other: &PermissionType) -> (r: bool)
        ensures
            r == (self@ == other@),
    {
        match (self, other) {
            (PermissionType::FilesystemRead, PermissionType::FilesystemRead) => true,
            (PermissionType::FilesystemWrite, PermissionType::FilesystemWrite) => true,
            (PermissionType::Network, PermissionType::Network) => true,
            (PermissionType::NetworkGithub, PermissionType::NetworkGithub) => true,
            (PermissionType::NetworkGitlab, PermissionType::NetworkGitlab) => true,
            (PermissionType::NetworkApi, PermissionType::NetworkApi) => true,
            (PermissionType::ShellExec, PermissionType::ShellExec) => true,
            (PermissionType::ShellInstall, PermissionType::ShellInstall) => true,
            (PermissionType::ScreenCapture, PermissionType::ScreenCapture) => true,
            (PermissionType::InputControl, PermissionType::InputControl) => true,
            (PermissionType::WindowInspect, PermissionType::WindowInspect) => true,
            (PermissionType::ClipboardRead, PermissionType::ClipboardRead) => true,
            (PermissionType::ClipboardWrite, PermissionType::ClipboardWrite) => true,
            (PermissionType::Other(a), PermissionType::Other(b)) => text::str_eq(
                a.as_str(),
                b.as_str(),
            ),
            _ => false,
        }
    }
}

impl Clone for PermissionType {
    fn clone(&self) -> (r: Self)
        ensures
            r == *self,
    {
        match self {
            PermissionType::FilesystemRead => PermissionType::FilesystemRead,
            PermissionType::FilesystemWrite => PermissionType::FilesystemWrite,
            PermissionType::Network => PermissionType::Network,
            PermissionType::NetworkGithub => PermissionType::NetworkGithub,
            PermissionType::NetworkGitlab => PermissionType::NetworkGitlab,
            PermissionType::NetworkApi => PermissionType::NetworkApi,
            PermissionType::ShellExec => PermissionType::ShellExec,
            PermissionType::ShellInstall => PermissionType::ShellInstall,
            PermissionType::ScreenCapture => PermissionType::ScreenCapture,
            PermissionType::InputControl => PermissionType::InputControl,
            PermissionType::WindowInspect => PermissionType::WindowInspect,
            PermissionType::ClipboardRead => PermissionType::ClipboardRead,
            PermissionType::ClipboardWrite => PermissionType::ClipboardWrite,
            PermissionType::Other(name) => PermissionType::Other(name.clone()),
        }
    }
}

/// The permissions of a list.
pub open spec fn permissions(v: Seq<PermissionType>) -> Seq<PermissionView> {
    v.map_values(|p: PermissionType| p@)
}

/// Whether a list holds a permission.
pub fn has_permission(v: &Vec<PermissionType>, p: &PermissionType) -> (r: bool)
    ensures
        r == permissions(v@).contains(p@),
{
    let mut i: usize = 0;
    while i < v.len()
        invariant
            i <= v.len(),
            forall|j: int| 0 <= j < i ==> permissions(v@)[j] != p@,
        decreases v.len() - i,
    {
        if v[i].same(p) {
            assert(permissions(v@)[i as int] == p@);
            return true;
        }
        i = i + 1;
    }
    false
}

/// The permissions that a token or a session has.
#[derive(Debug)]
pub struct PermissionProfile {
    pub allowed: Vec<PermissionType>,
    pub denied: Vec<PermissionType>,
    /// Whether a permission that is in neither list is denied.
    pub default_deny: bool,
}

/// A profile, over plain permissions.
pub struct ProfileView {
    pub allowed: Seq<PermissionView>,
    pub denied: Seq<PermissionView>,
    pub default_deny: bool,
}

impl ProfileView {
    /// Whether the profile lets a permission through: never what it denies, always
    /// what it allows and does not deny, and the rest as its default says.
    pub open spec fn permits(self, p: PermissionView) -> bool {
        !self.denied.contains(p) && (self.allowed.contains(p) || !self.default_deny)
    }
}

impl View for PermissionProfile {
    type V = ProfileView;

    open spec fn view(&self) -> ProfileView {
        ProfileView {
            allowed: permissions(self.allowed@),
            denied: permissions(self.denied@),
            default_deny: self.default_deny,
        }
    }
}

impl PermissionProfile {
    /// The profile that lists nothing and allows by default.
    pub fn new() -> (r: Self)
        ensures
            r@ == (ProfileView { allowed: Seq::empty(), denied: Seq::empty(), default_deny: false }),
    {
        let r = PermissionProfile { allowed: Vec::new(), denied: Vec::new(), default_deny: false };
        assert(r@.allowed =~= Seq::empty());
        assert(r@.denied =~= Seq::empty());
        r
    }

    pub fn allow(self, p: PermissionType) -> (r: Self)
        ensures
            r@ == (ProfileView { allowed: self@.allowed.push(p@), ..self@ }),
    {
        let mut r = self;
        r.allowed.push(p);
        assert(r@.allowed =~= self@.allowed.push(p@));
        r
    }

    pub fn deny(self, p: PermissionType) -> (r: Self)
        ensures
            r@ == (ProfileView { denied: self@.denied.push(p@), ..self@ }),
    {
        let mut r = self;
        r.denied.push(p);
        assert(r@.denied =~= self@.denied.push(p@));
        r
    }

    pub fn with_default_deny(self) -> (r: Self)
        ensures
            r@ == (ProfileView { default_deny: true, ..self@ }),
    {
        let mut r = self;
        r.default_deny = true;
        r
    }

    pub fn is_allowed(&self, permission: &PermissionType) -> (r: bool)
        ensures
            r == self@.permits(permission@),
    {
        if has_permission(&self.denied, permission) {
            return false;
        }
        if has_permission(&self.allowed, permission) {
            return true;
        }
        !self.default_deny
    }
}

impl Default for PermissionProfile {
    fn default() -> (r: Self)
        ensures
            r@ == (ProfileView { allowed: Seq::empty(), denied: Seq::empty(), default_deny: false }),
    {
        PermissionProfile::new()
    }
}

/// Denial wins: whatever is allowed before or afterwards, a denied permission does
/// not pass.
pub proof fn law_denial_wins(profile: ProfileView, p: PermissionView, q: PermissionView)
    ensures
        !(ProfileView { denied: profile.denied.push(p), ..profile }).permits(p),
        profile.denied.contains(p) ==> !(ProfileView {
            allowed: profile.allowed.push(q),
            ..profile
        }).permits(p),
{
    assert(profile.denied.push(p).last() == p);
}

/// Allowing what is not denied lets it through, under either default.
pub proof fn law_allowed_passes(profile: ProfileView, p: PermissionView)
    requires
        !profile.denied.contains(p),
    ensures
        (ProfileView { allowed: profile.allowed.push(p), ..profile }).permits(p),
        (ProfileView {
            allowed: profile.allowed.push(p),
            default_deny: true,
            ..profile
        }).permits(p),
{
    assert(profile.allowed.push(p).last() == p);
}

/// Of what a profile neither allows nor denies its default decides.
pub proof fn law_default_decides_the_rest(profile: ProfileView, p: PermissionView)
    ensures
        profile.denied.contains(p) ==> !profile.permits(p),
        !profile.denied.contains(p) && profile.allowed.contains(p) ==> profile.permits(p),
        !profile.denied.contains(p) && !profile.allowed.contains(p) ==> profile.permits(p)
            == !profile.default_deny,
{
}

/// No two permissions are taken for one another: what is seen of a permission tells its kind,
/// and of a custom one its name.
pub proof fn law_permissions_are_told_apart(a: PermissionType, b: PermissionType)
    ensures
        a@ == b@ ==> (a is FilesystemRead <==> b is FilesystemRead) && (a is FilesystemWrite
            <==> b is FilesystemWrite) && (a is Network <==> b is Network) && (a is NetworkGithub
            <==> b is NetworkGithub) && (a is NetworkGitlab <==> b is NetworkGitlab) && (
        a is NetworkApi <==> b is NetworkApi) && (a is ShellExec <==> b is ShellExec) && (
        a is ShellInstall <==> b is ShellInstall) && (a is ScreenCapture <==> b is ScreenCapture)
            && (a is InputControl <==> b is InputControl) && (a is WindowInspect
            <==> b is WindowInspect) && (a is ClipboardRead <==> b is ClipboardRead) && (
        a is ClipboardWrite <==> b is ClipboardWrite) && (a is Other <==> b is Other),
        a matches PermissionType::Other(x) ==> b matches PermissionType::Other(y) ==> (a@ == b@
            <==> x@ == y@),
        a is FilesystemWrite ==> a@ is FilesystemWrite,
        a is ShellExec ==> a@ is ShellExec,
        a is Network ==> a@ is Network,
        a matches PermissionType::Other(x) ==> a@ == PermissionView::Other(x@),
{
}

} // verus!
