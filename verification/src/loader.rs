//! The platform loader, modeled: a process-level state of loaded libraries
//! over a fixed collection of library images.
//!
//! An [`Image`] stands for a shared-library file the platform loader can
//! reach: its path, the symbols it exports (each with a non-null address),
//! and the names it needs from libraries loaded before it. A [`Loader`]
//! tracks which images are mapped into the process and with which symbol
//! visibility; handles are never released — a loaded library stays resident
//! for the remaining lifetime of the process.
//!
//! `load` and `find_symbol` follow the platform contract: loading fails when
//! no image carries the requested path or when some needed name is not
//! exported by any globally visible library already loaded; resolution fails
//! exactly when the handle's image does not export the name. Loading a path
//! that is already resident yields the existing handle (at most one handle
//! per distinct path), promoting its visibility to global when asked.

use vstd::prelude::*;

verus! {

/// One exported symbol: a name bound to a non-null machine address.
pub struct SymbolDef {
    pub name: String,
    pub address: u64,
}

/// A shared-library file as the platform loader sees it.
pub struct Image {
    /// The path under which the loader finds this image.
    pub path: String,
    /// The symbols this image exports.
    pub exports: Vec<SymbolDef>,
    /// Names this image needs from globally visible libraries loaded
    /// before it; an unmet need makes the load fail.
    pub imports: Vec<String>,
}

/// One library mapped into the process.
#[derive(Clone, Copy, PartialEq, Eq, Structural, Debug)]
pub struct LoadedLibrary {
    /// Index of the image this library was loaded from.
    pub image: usize,
    /// Whether its exports are visible to libraries loaded afterward.
    pub global: bool,
}

/// An opaque reference to a loaded library, produced only by a successful
/// load and valid for the remaining lifetime of the process.
#[derive(Clone, Copy, PartialEq, Eq, Structural, Debug)]
pub struct Handle {
    pub id: usize,
}

/// A library file could not be loaded.
#[derive(Debug)]
pub enum LoadError {
    /// No image carries this path.
    NotFound(String),
    /// The image exists but needs this name, which no globally visible
    /// loaded library exports.
    UnresolvedImport(String),
}

/// A name is not exported by an otherwise successfully loaded library.
#[derive(Debug)]
pub enum SymbolError {
    NotExported(String),
}

/// The process's dynamic-loading state.
pub struct Loader {
    /// The library images the platform loader can reach.
    pub images: Vec<Image>,
    /// The libraries mapped so far, in load order.
    pub loaded: Vec<LoadedLibrary>,
}

/// First export of `name` at or after position `i`, if any.
pub open spec fn lookup_export_from(exports: Seq<SymbolDef>, name: Seq<char>, i: int) -> Option<u64>
    decreases exports.len() - i,
{
    if i < 0 || i >= exports.len() {
        None
    } else if exports[i].name@ == name {
        Some(exports[i].address)
    } else {
        lookup_export_from(exports, name, i + 1)
    }
}

/// The address `name` resolves to within `exports`, if exported.
pub open spec fn lookup_export(exports: Seq<SymbolDef>, name: Seq<char>) -> Option<u64> {
    lookup_export_from(exports, name, 0)
}

/// First image with path `path` at or after position `i`, if any.
pub open spec fn find_image_from(images: Seq<Image>, path: Seq<char>, i: int) -> Option<int>
    decreases images.len() - i,
{
    if i < 0 || i >= images.len() {
        None
    } else if images[i].path@ == path {
        Some(i)
    } else {
        find_image_from(images, path, i + 1)
    }
}

/// The image the loader finds under `path`, if any.
pub open spec fn find_image(images: Seq<Image>, path: Seq<char>) -> Option<int> {
    find_image_from(images, path, 0)
}

/// First loaded library whose image carries `path`, at or after position `j`.
pub open spec fn find_loaded_from(
    images: Seq<Image>,
    loaded: Seq<LoadedLibrary>,
    path: Seq<char>,
    j: int,
) -> Option<int>
    decreases loaded.len() - j,
{
    if j < 0 || j >= loaded.len() {
        None
    } else if loaded[j].image < images.len() && images[loaded[j].image as int].path@ == path {
        Some(j)
    } else {
        find_loaded_from(images, loaded, path, j + 1)
    }
}

/// The resident library under `path`, if the path was loaded before.
pub open spec fn find_loaded(images: Seq<Image>, loaded: Seq<LoadedLibrary>, path: Seq<char>) -> Option<int> {
    find_loaded_from(images, loaded, path, 0)
}

/// Whether this loaded library makes `name` resolvable by later loads.
pub open spec fn provides(images: Seq<Image>, lib: LoadedLibrary, name: Seq<char>) -> bool {
    lib.global && lib.image < images.len() && lookup_export(
        images[lib.image as int].exports@,
        name,
    ) is Some
}

/// Whether some already-loaded, globally visible library exports `name`.
pub open spec fn import_ok(images: Seq<Image>, loaded: Seq<LoadedLibrary>, name: Seq<char>) -> bool {
    exists|j: int| 0 <= j < loaded.len() && provides(images, #[trigger] loaded[j], name)
}

/// First name among `imports`, at or after position `k`, that no globally
/// visible loaded library exports.
pub open spec fn first_unresolved_from(
    images: Seq<Image>,
    loaded: Seq<LoadedLibrary>,
    imports: Seq<String>,
    k: int,
) -> Option<Seq<char>>
    decreases imports.len() - k,
{
    if k < 0 || k >= imports.len() {
        None
    } else if !import_ok(images, loaded, imports[k]@) {
        Some(imports[k]@)
    } else {
        first_unresolved_from(images, loaded, imports, k + 1)
    }
}

/// The first unmet need of an image, if any.
pub open spec fn first_unresolved(
    images: Seq<Image>,
    loaded: Seq<LoadedLibrary>,
    imports: Seq<String>,
) -> Option<Seq<char>> {
    first_unresolved_from(images, loaded, imports, 0)
}

/// Whether loading `path` succeeds in this state: either the path is
/// already resident, or an image carries it and every name it needs is
/// exported by a globally visible library loaded before it.
pub open spec fn loadable(images: Seq<Image>, loaded: Seq<LoadedLibrary>, path: Seq<char>) -> bool {
    find_loaded(images, loaded, path) is Some || (find_image(images, path) matches Some(i)
        && first_unresolved(images, loaded, images[i].imports@) is None)
}

/// The load order after a load of `path`: unchanged on failure or when the
/// path is already resident (save for a visibility promotion when the new
/// load asks for global symbols), extended by one library otherwise.
pub open spec fn after_load(
    images: Seq<Image>,
    loaded: Seq<LoadedLibrary>,
    path: Seq<char>,
    global_symbols: bool,
) -> Seq<LoadedLibrary> {
    match find_loaded(images, loaded, path) {
        Some(j) => if global_symbols {
            loaded.update(j, LoadedLibrary { image: loaded[j].image, global: true })
        } else {
            loaded
        },
        None => match find_image(images, path) {
            Some(i) => if first_unresolved(images, loaded, images[i].imports@) is None {
                loaded.push(LoadedLibrary { image: i as usize, global: global_symbols })
            } else {
                loaded
            },
            None => loaded,
        },
    }
}

/// The handle a successful load of `path` returns: the resident library's
/// position, or the position at the end where a new library is appended.
pub open spec fn handle_after(images: Seq<Image>, loaded: Seq<LoadedLibrary>, path: Seq<char>) -> int {
    match find_loaded(images, loaded, path) {
        Some(j) => j,
        None => loaded.len() as int,
    }
}

/// The image a successful load of `path` leaves behind its handle.
pub open spec fn image_for(images: Seq<Image>, loaded: Seq<LoadedLibrary>, path: Seq<char>) -> int {
    match find_loaded(images, loaded, path) {
        Some(j) => loaded[j].image as int,
        None => find_image(images, path)->0,
    }
}

/// Which error a failing load of `path` reports, and with which payload.
pub open spec fn load_error_matches(
    images: Seq<Image>,
    loaded: Seq<LoadedLibrary>,
    path: Seq<char>,
    e: LoadError,
) -> bool {
    match e {
        LoadError::NotFound(p) => p@ == path && find_loaded(images, loaded, path) is None
            && find_image(images, path) is None,
        LoadError::UnresolvedImport(s) => find_loaded(images, loaded, path) is None && (find_image(
            images,
            path,
        ) matches Some(i) && first_unresolved(images, loaded, images[i].imports@) == Some(s@)),
    }
}

/// The images are countable by the machine, and every exported address is
/// non-null: a resolvable symbol is never at address zero.
pub open spec fn env_wf(images: Seq<Image>) -> bool {
    images.len() <= usize::MAX && (forall|i: int, k: int|
        0 <= i < images.len() && 0 <= k < images[i].exports@.len() ==> #[trigger] images[i].exports@[k].address
            != 0)
}

/// Every loaded library refers to an image, and no two handles share a
/// path: the process holds at most one handle per distinct library path.
pub open spec fn loaded_wf(images: Seq<Image>, loaded: Seq<LoadedLibrary>) -> bool {
    (forall|j: int| 0 <= j < loaded.len() ==> (#[trigger] loaded[j]).image < images.len())
        && (forall|j1: int, j2: int|
        #![trigger loaded[j1], loaded[j2]]
        0 <= j1 < j2 < loaded.len() ==> images[loaded[j1].image as int].path@ != images[loaded[j2].image as int].path@)
}

/// The loader's invariant, established by the constructor and preserved by
/// every load.
pub open spec fn loader_wf(l: Loader) -> bool {
    env_wf(l.images@) && loaded_wf(l.images@, l.loaded@)
}

/// The exports of the image behind a handle.
pub open spec fn handle_exports(l: Loader, h: Handle) -> Seq<SymbolDef> {
    l.images@[l.loaded@[h.id as int].image as int].exports@
}

/// What a `lookup_export_from` result means position by position: a hit is
/// a matching export, a miss means no export from `i` on matches.
pub proof fn lemma_lookup_export_from_props(exports: Seq<SymbolDef>, name: Seq<char>, i: int)
    requires
        0 <= i <= exports.len(),
    ensures
        match lookup_export_from(exports, name, i) {
            Some(a) => exists|k: int|
                i <= k < exports.len() && (#[trigger] exports[k]).name@ == name && exports[k].address == a,
            None => forall|k: int| i <= k < exports.len() ==> (#[trigger] exports[k]).name@ != name,
        },
    decreases exports.len() - i,
{
    if i < exports.len() && exports[i].name@ != name {
        lemma_lookup_export_from_props(exports, name, i + 1);
    }
}

/// What a `find_image_from` result means: a hit carries the path, a miss
/// means no image from `i` on carries it.
pub proof fn lemma_find_image_from_props(images: Seq<Image>, path: Seq<char>, i: int)
    requires
        0 <= i <= images.len(),
    ensures
        match find_image_from(images, path, i) {
            Some(x) => i <= x < images.len() && images[x].path@ == path,
            None => forall|k: int| i <= k < images.len() ==> (#[trigger] images[k]).path@ != path,
        },
    decreases images.len() - i,
{
    if i < images.len() && images[i].path@ != path {
        lemma_find_image_from_props(images, path, i + 1);
    }
}

/// What a `find_loaded_from` result means: a hit is a resident library
/// whose image carries the path, a miss means no resident library from `j`
/// on does.
pub proof fn lemma_find_loaded_from_props(
    images: Seq<Image>,
    loaded: Seq<LoadedLibrary>,
    path: Seq<char>,
    j: int,
)
    requires
        0 <= j <= loaded.len(),
    ensures
        match find_loaded_from(images, loaded, path, j) {
            Some(x) => j <= x < loaded.len() && loaded[x].image < images.len()
                && images[loaded[x].image as int].path@ == path,
            None => forall|k: int|
                j <= k < loaded.len() ==> !((#[trigger] loaded[k]).image < images.len()
                    && images[loaded[k].image as int].path@ == path),
        },
    decreases loaded.len() - j,
{
    if j < loaded.len() && !(loaded[j].image < images.len() && images[loaded[j].image as int].path@
        == path) {
        lemma_find_loaded_from_props(images, loaded, path, j + 1);
    }
}

/// What a `first_unresolved_from` result means: a hit is an unmet need, a
/// miss means every need from `k` on is met.
pub proof fn lemma_first_unresolved_from_props(
    images: Seq<Image>,
    loaded: Seq<LoadedLibrary>,
    imports: Seq<String>,
    k: int,
)
    requires
        0 <= k <= imports.len(),
    ensures
        match first_unresolved_from(images, loaded, imports, k) {
            Some(s) => exists|x: int|
                k <= x < imports.len() && (#[trigger] imports[x])@ == s && !import_ok(images, loaded, imports[x]@),
            None => forall|x: int|
                k <= x < imports.len() ==> import_ok(images, loaded, (#[trigger] imports[x])@),
        },
    decreases imports.len() - k,
{
    if k < imports.len() && import_ok(images, loaded, imports[k]@) {
        lemma_first_unresolved_from_props(images, loaded, imports, k + 1);
    }
}

impl Loader {
    /// A fresh process state over the given images: nothing loaded yet.
    pub fn new(images: Vec<Image>) -> (r: Loader)
        requires
            env_wf(images@),
        ensures
            r.images@ == images@,
            r.loaded@ =~= Seq::<LoadedLibrary>::empty(),
            loader_wf(r),
    {
        Loader { images, loaded: Vec::new() }
    }

    /// The position of the first image carrying `path`, if any.
    fn image_index(&self, path: &String) -> (r: Option<usize>)
        ensures
            match r {
                Some(i) => find_image(self.images@, path@) == Some(i as int),
                None => find_image(self.images@, path@) is None,
            },
    {
        let mut i: usize = 0;
        while i < self.images.len()
            invariant
                i <= self.images@.len(),
                find_image(self.images@, path@) == find_image_from(self.images@, path@, i as int),
            decreases self.images@.len() - i,
        {
            if self.images[i].path == *path {
                return Some(i);
            }
            i += 1;
        }
        None
    }

    /// The position of the resident library carrying `path`, if any.
    fn loaded_index(&self, path: &String) -> (r: Option<usize>)
        ensures
            match r {
                Some(j) => find_loaded(self.images@, self.loaded@, path@) == Some(j as int),
                None => find_loaded(self.images@, self.loaded@, path@) is None,
            },
    {
        let mut j: usize = 0;
        while j < self.loaded.len()
            invariant
                j <= self.loaded@.len(),
                find_loaded(self.images@, self.loaded@, path@) == find_loaded_from(
                    self.images@,
                    self.loaded@,
                    path@,
                    j as int,
                ),
            decreases self.loaded@.len() - j,
        {
            let img = self.loaded[j].image;
            if img < self.images.len() && self.images[img].path == *path {
                return Some(j);
            }
            j += 1;
        }
        None
    }

    /// The address `name` resolves to within `exports`, if exported.
    fn lookup_export_in(exports: &Vec<SymbolDef>, name: &String) -> (r: Option<u64>)
        ensures
            r == lookup_export(exports@, name@),
    {
        let mut k: usize = 0;
        while k < exports.len()
            invariant
                k <= exports@.len(),
                lookup_export(exports@, name@) == lookup_export_from(exports@, name@, k as int),
            decreases exports@.len() - k,
        {
            if exports[k].name == *name {
                return Some(exports[k].address);
            }
            k += 1;
        }
        None
    }

    /// Whether some already-loaded, globally visible library exports `name`.
    fn import_resolvable(&self, name: &String) -> (r: bool)
        ensures
            r == import_ok(self.images@, self.loaded@, name@),
    {
        let mut j: usize = 0;
        while j < self.loaded.len()
            invariant
                j <= self.loaded@.len(),
                forall|x: int| 0 <= x < j ==> !provides(self.images@, #[trigger] self.loaded@[x], name@),
            decreases self.loaded@.len() - j,
        {
            let lib = self.loaded[j];
            if lib.global && lib.image < self.images.len() {
                if let Some(_a) = Self::lookup_export_in(&self.images[lib.image].exports, name) {
                    assert(provides(self.images@, self.loaded@[j as int], name@));
                    return true;
                }
            }
            j += 1;
        }
        false
    }

    /// The first name among `imports` that no globally visible loaded
    /// library exports, if any.
    fn first_unresolved_import(&self, imports: &Vec<String>) -> (r: Option<String>)
        ensures
            match r {
                Some(s) => first_unresolved(self.images@, self.loaded@, imports@) == Some(s@),
                None => first_unresolved(self.images@, self.loaded@, imports@) is None,
            },
    {
        let mut k: usize = 0;
        while k < imports.len()
            invariant
                k <= imports@.len(),
                first_unresolved(self.images@, self.loaded@, imports@) == first_unresolved_from(
                    self.images@,
                    self.loaded@,
                    imports@,
                    k as int,
                ),
            decreases imports@.len() - k,
        {
            if !self.import_resolvable(&imports[k]) {
                return Some(imports[k].clone());
            }
            k += 1;
        }
        None
    }

    /// Opens the library under `path`, making its exports visible to later
    /// loads exactly when `global_symbols` is set.
    ///
    /// Succeeds if and only if the path is loadable in the current state:
    /// already resident (the existing handle comes back, promoted to global
    /// visibility when asked), or carried by an image whose every needed
    /// name a globally visible resident library exports. On failure the
    /// state is unchanged and the error names the path when no image
    /// carries it, or the first unmet need otherwise.
    pub fn load(&mut self, path: &String, global_symbols: bool) -> (r: Result<Handle, LoadError>)
        requires
            loader_wf(*old(self)),
        ensures
            loader_wf(*final(self)),
            final(self).images@ == old(self).images@,
            final(self).loaded@ == after_load(
                old(self).images@,
                old(self).loaded@,
                path@,
                global_symbols,
            ),
            r is Ok <==> loadable(old(self).images@, old(self).loaded@, path@),
            (r matches Ok(h) ==> h.id as int == handle_after(old(self).images@, old(self).loaded@, path@)
                && h.id < final(self).loaded@.len()
                && final(self).loaded@[h.id as int].image as int == image_for(
                old(self).images@,
                old(self).loaded@,
                path@,
            ) && final(self).loaded@[h.id as int].global == (global_symbols || (
            find_loaded(old(self).images@, old(self).loaded@, path@) matches Some(j)
                && old(self).loaded@[j].global))),
            (r matches Err(e) ==> load_error_matches(old(self).images@, old(self).loaded@, path@, e)
                && final(self).loaded@ == old(self).loaded@),
    {
        if let Some(j) = self.loaded_index(path) {
            proof {
                lemma_find_loaded_from_props(self.images@, self.loaded@, path@, 0);
            }
            if global_symbols {
                let img = self.loaded[j].image;
                self.loaded.set(j, LoadedLibrary { image: img, global: true });
            }
            return Ok(Handle { id: j });
        }
        let i = match self.image_index(path) {
            Some(i) => i,
            None => {
                return Err(LoadError::NotFound(path.clone()));
            },
        };
        proof {
            lemma_find_image_from_props(self.images@, path@, 0);
        }
        match self.first_unresolved_import(&self.images[i].imports) {
            Some(s) => Err(LoadError::UnresolvedImport(s)),
            None => {
                let h = self.loaded.len();
                self.loaded.push(LoadedLibrary { image: i, global: global_symbols });
                proof {
                    lemma_find_loaded_from_props(old(self).images@, old(self).loaded@, path@, 0);
                    let imgs = self.images@;
                    let new_loaded = self.loaded@;
                    assert forall|j1: int, j2: int|
                        #![trigger new_loaded[j1], new_loaded[j2]]
                        0 <= j1 < j2 < new_loaded.len() implies imgs[new_loaded[j1].image as int].path@
                        != imgs[new_loaded[j2].image as int].path@ by {
                        if j2 == old(self).loaded@.len() {
                            assert(!(old(self).loaded@[j1].image < imgs.len()
                                && imgs[old(self).loaded@[j1].image as int].path@ == path@));
                        }
                    }
                }
                Ok(Handle { id: h })
            },
        }
    }

    /// Resolves `name` within the library behind `handle`.
    ///
    /// Succeeds with the symbol's non-null address if and only if the
    /// handle's image exports the name; the result is a function of the
    /// unchanged loader state, so resolving the same name from the same
    /// handle again yields the same address. Fails naming the missing
    /// symbol otherwise.
    pub fn find_symbol(&self, handle: Handle, name: &String) -> (r: Result<u64, SymbolError>)
        requires
            loader_wf(*self),
            handle.id < self.loaded@.len(),
        ensures
            match r {
                Ok(a) => lookup_export(handle_exports(*self, handle), name@) == Some(a) && a != 0,
                Err(SymbolError::NotExported(n)) => n@ == name@ && lookup_export(
                    handle_exports(*self, handle),
                    name@,
                ) is None,
            },
    {
        let img = self.loaded[handle.id].image;
        match Self::lookup_export_in(&self.images[img].exports, name) {
            Some(a) => {
                proof {
                    lemma_lookup_export_from_props(self.images@[img as int].exports@, name@, 0);
                    let k = choose|k: int|
                        0 <= k < self.images@[img as int].exports@.len() && (#[trigger] self.images@[img as int].exports@[k]).name@
                            == name@ && self.images@[img as int].exports@[k].address == a;
                    assert(self.images@[img as int].exports@[k].address != 0);
                }
                Ok(a)
            },
            None => Err(SymbolError::NotExported(name.clone())),
        }
    }
}

} // verus!
