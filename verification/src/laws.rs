//! Laws of the loading model: what a successful load guarantees about
//! symbol resolution, what directory-to-filename resolution guarantees
//! about loadability, and how the visibility a library is loaded with
//! decides whether later libraries can resolve against it.

use vstd::prelude::*;

use crate::loader::{
    after_load, find_image, find_loaded, first_unresolved, handle_after, handle_exports, image_for,
    import_ok, lemma_find_image_from_props, lemma_find_loaded_from_props,
    lemma_first_unresolved_from_props, lemma_lookup_export_from_props, load_error_matches,
    loadable, loader_wf, lookup_export, provides, Handle, LoadError, Loader,
};
use crate::platform::{spec_resolve_backend_path, Platform};

verus! {

/// A load that succeeds yields a handle behind which the loaded image
/// stands, and any name that image exports resolves through that handle to
/// its non-null address. Since resolution is a pure function of the loader
/// state, which resolution leaves untouched, resolving the same name from
/// the same handle again yields the same address.
pub proof fn lemma_load_then_find_symbol(
    l: Loader,
    path: Seq<char>,
    global_symbols: bool,
    name: Seq<char>,
)
    requires
        loader_wf(l),
        loadable(l.images@, l.loaded@, path),
        lookup_export(l.images@[image_for(l.images@, l.loaded@, path)].exports@, name) is Some,
    ensures
        ({
            let l1 = after_load(l.images@, l.loaded@, path, global_symbols);
            let h = handle_after(l.images@, l.loaded@, path);
            let img = image_for(l.images@, l.loaded@, path);
            0 <= h < l1.len() && l1[h].image as int == img && 0 <= img < l.images@.len() && (
            lookup_export(l.images@[img].exports@, name) matches Some(a) && a != 0)
        }),
{
    lemma_find_loaded_from_props(l.images@, l.loaded@, path, 0);
    lemma_find_image_from_props(l.images@, path, 0);
    let img = image_for(l.images@, l.loaded@, path);
    lemma_lookup_export_from_props(l.images@[img].exports@, name, 0);
    let k = choose|k: int|
        0 <= k < l.images@[img].exports@.len() && (#[trigger] l.images@[img].exports@[k]).name@
            == name && l.images@[img].exports@[k].address == lookup_export(
            l.images@[img].exports@,
            name,
        )->0;
    assert(l.images@[img].exports@[k].address != 0);
}

/// Symbol resolution is repeatable: `find_symbol` admits only one address
/// for a given state, handle and name — its contract ties any successful
/// result to `lookup_export` over the state the call leaves untouched — so
/// resolving the same name from the same handle twice yields the same
/// address.
pub proof fn lemma_find_symbol_repeatable(l: Loader, h: Handle, name: Seq<char>, a1: u64, a2: u64)
    requires
        lookup_export(handle_exports(l, h), name) == Some(a1),
        lookup_export(handle_exports(l, h), name) == Some(a2),
    ensures
        a1 == a2,
{
}

/// A handle, once produced, stays valid and keeps referring to the same
/// image for the remaining lifetime of the process: a later load never
/// removes a loaded library and never changes which image an existing
/// position refers to — at most it promotes one library's visibility.
pub proof fn lemma_load_preserves_handles(l: Loader, path: Seq<char>, global_symbols: bool)
    ensures
        ({
            let l1 = after_load(l.images@, l.loaded@, path, global_symbols);
            l.loaded@.len() <= l1.len() && (forall|j: int|
                0 <= j < l.loaded@.len() ==> (#[trigger] l1[j]).image == l.loaded@[j].image)
        }),
{
    lemma_find_loaded_from_props(l.images@, l.loaded@, path, 0);
}

/// Directory-to-filename resolution. If the images hold a library under
/// the resolved path `dir` + separator + backend file name, and its needs
/// are met, that path is loadable; if no image carries the resolved path,
/// loading it must fail, and the only error a load can report is
/// not-found, naming the resolved path.
pub proof fn lemma_directory_resolution(l: Loader, dir: Seq<char>, p: Platform)
    requires
        loader_wf(l),
    ensures
        ({
            let target = spec_resolve_backend_path(dir, true, p);
            (find_image(l.images@, target) matches Some(i) && first_unresolved(
                l.images@,
                l.loaded@,
                l.images@[i].imports@,
            ) is None ==> loadable(l.images@, l.loaded@, target))
        }),
        ({
            let target = spec_resolve_backend_path(dir, true, p);
            find_image(l.images@, target) is None ==> !loadable(l.images@, l.loaded@, target)
                && (forall|e: LoadError|
                load_error_matches(l.images@, l.loaded@, target, e) ==> (
                e matches LoadError::NotFound(pp) && pp@ == target))
        }),
{
    let target = spec_resolve_backend_path(dir, true, p);
    if find_image(l.images@, target) is None {
        lemma_find_image_from_props(l.images@, target, 0);
        lemma_find_loaded_from_props(l.images@, l.loaded@, target, 0);
        if find_loaded(l.images@, l.loaded@, target) is Some {
            let j = find_loaded(l.images@, l.loaded@, target)->0;
            assert(l.images@[l.loaded@[j].image as int].path@ == target);
        }
    }
}

/// Global visibility enables later loads: after `a_path` is loaded with
/// global visibility, any library image whose every needed name the image
/// behind `a_path`'s handle exports becomes loadable.
pub proof fn lemma_global_visibility_enables(l: Loader, a_path: Seq<char>, b_path: Seq<char>)
    requires
        loader_wf(l),
        loadable(l.images@, l.loaded@, a_path),
        find_image(l.images@, b_path) matches Some(ib) && (forall|k: int|
            0 <= k < l.images@[ib].imports@.len() ==> lookup_export(
                l.images@[image_for(l.images@, l.loaded@, a_path)].exports@,
                (#[trigger] l.images@[ib].imports@[k])@,
            ) is Some),
    ensures
        loadable(l.images@, after_load(l.images@, l.loaded@, a_path, true), b_path),
{
    let images = l.images@;
    let l1 = after_load(images, l.loaded@, a_path, true);
    let h = handle_after(images, l.loaded@, a_path);
    let img = image_for(images, l.loaded@, a_path);
    lemma_find_loaded_from_props(images, l.loaded@, a_path, 0);
    lemma_find_image_from_props(images, a_path, 0);
    assert(0 <= h < l1.len() && l1[h].image as int == img && l1[h].global);
    let ib = find_image(images, b_path)->0;
    assert forall|k: int| 0 <= k < images[ib].imports@.len() implies import_ok(
        images,
        l1,
        (#[trigger] images[ib].imports@[k])@,
    ) by {
        assert(provides(images, l1[h], images[ib].imports@[k]@));
    }
    lemma_first_unresolved_from_props(images, l1, images[ib].imports@, 0);
    if first_unresolved(images, l1, images[ib].imports@) is Some {
        assert(false);
    }
}

/// Local visibility withholds symbols from later loads: when `a_path` is
/// newly loaded with local visibility, a library image that needs a name
/// `s` which no already-resident globally visible library exports stays
/// unloadable, and the only error a load of it can report is an
/// unresolved-import error.
pub proof fn lemma_local_visibility_withholds(
    l: Loader,
    a_path: Seq<char>,
    b_path: Seq<char>,
    s: Seq<char>,
)
    requires
        loader_wf(l),
        find_loaded(l.images@, l.loaded@, a_path) is None,
        find_loaded(l.images@, l.loaded@, b_path) is None,
        a_path != b_path,
        !import_ok(l.images@, l.loaded@, s),
        find_image(l.images@, b_path) matches Some(ib) && (exists|k: int|
            0 <= k < l.images@[ib].imports@.len() && (#[trigger] l.images@[ib].imports@[k])@ == s),
    ensures
        ({
            let l1 = after_load(l.images@, l.loaded@, a_path, false);
            !loadable(l.images@, l1, b_path) && (forall|e: LoadError|
                load_error_matches(l.images@, l1, b_path, e) ==> e is UnresolvedImport)
        }),
{
    let images = l.images@;
    let l0 = l.loaded@;
    let l1 = after_load(images, l0, a_path, false);
    lemma_find_image_from_props(images, a_path, 0);
    lemma_find_loaded_from_props(images, l0, a_path, 0);
    // Nothing in the new load order provides `s`: the old libraries did
    // not, and a library appended by this load is not globally visible.
    assert forall|j: int| 0 <= j < l1.len() implies !provides(images, #[trigger] l1[j], s) by {
        if j < l0.len() {
            assert(l1[j] == l0[j]);
            if provides(images, l0[j], s) {
                assert(import_ok(images, l0, s));
            }
        } else {
            assert(!l1[j].global);
        }
    }
    assert(!import_ok(images, l1, s));
    // The new load order still has no resident library under `b_path`.
    lemma_find_loaded_from_props(images, l1, b_path, 0);
    if find_loaded(images, l1, b_path) is Some {
        let j = find_loaded(images, l1, b_path)->0;
        if j < l0.len() {
            assert(l1[j] == l0[j]);
            lemma_find_loaded_from_props(images, l0, b_path, 0);
        } else {
            assert(images[l1[j].image as int].path@ == a_path);
        }
        assert(false);
    }
    // Some need of the image behind `b_path` stays unmet.
    let ib = find_image(images, b_path)->0;
    lemma_first_unresolved_from_props(images, l1, images[ib].imports@, 0);
    if first_unresolved(images, l1, images[ib].imports@) is None {
        let k = choose|k: int|
            0 <= k < images[ib].imports@.len() && (#[trigger] images[ib].imports@[k])@ == s;
        assert(import_ok(images, l1, images[ib].imports@[k]@));
        assert(false);
    }
}

} // verus!
