use vstd::prelude::*;

use crate::config::UiLanguage;
use crate::peer::Permissions;

verus! {

/// The permission choices offered when a peer is paired or edited.
#[derive(Debug, Clone, Copy, PartialEq, Eq, Structural)]
pub enum PermissionPreset {
    ReadOnly,
    ReadWrite,
    ReadWriteMirrorDelete,
}

/// The presets, in the order the menus list them.
pub open spec fn preset_at(i: int) -> PermissionPreset {
    if i == 0 {
        PermissionPreset::ReadOnly
    } else if i == 1 {
        PermissionPreset::ReadWrite
    } else {
        PermissionPreset::ReadWriteMirrorDelete
    }
}

/// Where a preset stands in the menus.
pub open spec fn preset_index(p: PermissionPreset) -> int {
    match p {
        PermissionPreset::ReadOnly => 0,
        PermissionPreset::ReadWrite => 1,
        PermissionPreset::ReadWriteMirrorDelete => 2,
    }
}

/// The permissions of each preset: reading always; writing for the two
/// read-write presets; mirror deletions for the last one only.
pub open spec fn preset_permissions(p: PermissionPreset) -> Permissions {
    match p {
        PermissionPreset::ReadOnly => Permissions { read: true, write: false, mirror_delete: false },
        PermissionPreset::ReadWrite => Permissions { read: true, write: true, mirror_delete: false },
        PermissionPreset::ReadWriteMirrorDelete => Permissions {
            read: true,
            write: true,
            mirror_delete: true,
        },
    }
}

impl PermissionPreset {
    /// The presets, in order.
    pub fn all() -> (v: Vec<PermissionPreset>)
        ensures
            v@.len() == 3,
            forall|i: int| 0 <= i < 3 ==> #[trigger] v@[i] == preset_at(i),
    {
        let mut v: Vec<PermissionPreset> = Vec::new();
        v.push(PermissionPreset::ReadOnly);
        v.push(PermissionPreset::ReadWrite);
        v.push(PermissionPreset::ReadWriteMirrorDelete);
        v
    }

    /// The preset at a menu position.
    pub fn at(i: usize) -> (p: PermissionPreset)
        requires
            i < 3,
        ensures
            p == preset_at(i as int),
    {
        if i == 0 {
            PermissionPreset::ReadOnly
        } else if i == 1 {
            PermissionPreset::ReadWrite
        } else {
            PermissionPreset::ReadWriteMirrorDelete
        }
    }

    /// The menu position of the preset.
    pub fn index(self) -> (i: usize)
        ensures
            i == preset_index(self),
            i < 3,
    {
        match self {
            PermissionPreset::ReadOnly => 0,
            PermissionPreset::ReadWrite => 1,
            PermissionPreset::ReadWriteMirrorDelete => 2,
        }
    }

    pub fn permissions(self) -> (p: Permissions)
        ensures
            p == preset_permissions(self),
    {
        match self {
            PermissionPreset::ReadOnly => Permissions { read: true, write: false, mirror_delete: false },
            PermissionPreset::ReadWrite => Permissions { read: true, write: true, mirror_delete: false },
            PermissionPreset::ReadWriteMirrorDelete => Permissions {
                read: true,
                write: true,
                mirror_delete: true,
            },
        }
    }

    pub open spec fn title_spec(self, lang: UiLanguage) -> Seq<char> {
        match (lang, self) {
            (UiLanguage::ZhCn, PermissionPreset::ReadOnly) => "只读（Read only）"@,
            (UiLanguage::ZhCn, PermissionPreset::ReadWrite) => "读写（Read + Write）"@,
            (UiLanguage::ZhCn, PermissionPreset::ReadWriteMirrorDelete) => "读写 + 允许 Mirror Delete"@,
            (UiLanguage::En, PermissionPreset::ReadOnly) => "Read only"@,
            (UiLanguage::En, PermissionPreset::ReadWrite) => "Read + Write"@,
            (UiLanguage::En, PermissionPreset::ReadWriteMirrorDelete) => "Read + Write + Allow mirror delete"@,
        }
    }

    pub fn title(self, lang: UiLanguage) -> (s: &'static str)
        ensures
            s@ == self.title_spec(lang),
    {
        match (lang, self) {
            (UiLanguage::ZhCn, PermissionPreset::ReadOnly) => "只读（Read only）",
            (UiLanguage::ZhCn, PermissionPreset::ReadWrite) => "读写（Read + Write）",
            (UiLanguage::ZhCn, PermissionPreset::ReadWriteMirrorDelete) => "读写 + 允许 Mirror Delete",
            (UiLanguage::En, PermissionPreset::ReadOnly) => "Read only",
            (UiLanguage::En, PermissionPreset::ReadWrite) => "Read + Write",
            (UiLanguage::En, PermissionPreset::ReadWriteMirrorDelete) => "Read + Write + Allow mirror delete",
        }
    }

    /// The preset to offer for a peer's current permissions: the first whose
    /// permissions are exactly those, or read-write when none is.
    pub fn suggest_for(existing: Permissions) -> (p: PermissionPreset)
        ensures
            p == suggested_preset(existing),
    {
        let all = PermissionPreset::all();
        let mut i: usize = 0;
        while i < all.len()
            invariant
                i <= 3,
                all@.len() == 3,
                forall|k: int| 0 <= k < 3 ==> #[trigger] all@[k] == preset_at(k),
                forall|j: int| 0 <= j < i ==> preset_permissions(#[trigger] preset_at(j)) != existing,
            decreases 3 - i,
        {
            let p = all[i];
            if p.permissions() == existing {
                proof {
                    if i > 0 {
                        assert(preset_permissions(preset_at(0)) != existing);
                    }
                    if i > 1 {
                        assert(preset_permissions(preset_at(1)) != existing);
                    }
                }
                return p;
            }
            i = i + 1;
        }
        proof {
            assert(preset_permissions(preset_at(0)) != existing);
            assert(preset_permissions(preset_at(1)) != existing);
            assert(preset_permissions(preset_at(2)) != existing);
        }
        PermissionPreset::ReadWrite
    }
}

/// The first preset, in menu order, whose permissions are exactly these;
/// read-write when none is.
pub open spec fn suggested_preset(e: Permissions) -> PermissionPreset {
    if preset_permissions(PermissionPreset::ReadOnly) == e {
        PermissionPreset::ReadOnly
    } else if preset_permissions(PermissionPreset::ReadWrite) == e {
        PermissionPreset::ReadWrite
    } else if preset_permissions(PermissionPreset::ReadWriteMirrorDelete) == e {
        PermissionPreset::ReadWriteMirrorDelete
    } else {
        PermissionPreset::ReadWrite
    }
}

/// The preset offered for the permissions that a preset grants is that
/// preset, and it stands at its own menu position.
pub proof fn lemma_suggest_own_preset(p: PermissionPreset)
    ensures
        suggested_preset(preset_permissions(p)) == p,
        preset_at(preset_index(p)) == p,
{
}

} // verus!
