//! What the circuit store's plans guarantee, over a model of the disk.

use crate::digest::hex_lower;
use crate::state::{info_ops, removal_ops, spec_join, CircuitStore, StoreOpView};
use crate::types::CircuitInfoView;
use vstd::prelude::*;

verus! {

/// A model of what the disk holds: the content of every file, by location, and
/// every metadata row, by key.
pub struct Disk {
    pub files: Map<Seq<char>, Seq<u8>>,
    pub rows: Map<Seq<char>, CircuitInfoView>,
}

/// Whether `path` lies below the directory `dir`.
pub open spec fn is_below(path: Seq<char>, dir: Seq<char>) -> bool {
    path.len() > dir.len() && path.take(dir.len() as int + 1) == dir + seq!['/']
}

/// The disk after one operation.
pub open spec fn apply(op: StoreOpView, disk: Disk) -> Disk {
    match op {
        StoreOpView::CreateDirAll { dir } => disk,
        StoreOpView::WriteFile { path, data } => Disk {
            files: disk.files.insert(path, data),
            rows: disk.rows,
        },
        StoreOpView::InsertInfo { key, info } => Disk {
            files: disk.files,
            rows: disk.rows.insert(key, info),
        },
        StoreOpView::RemoveDirAll { dir } => Disk {
            files: disk.files.restrict(Set::new(|path: Seq<char>| !is_below(path, dir))),
            rows: disk.rows,
        },
        StoreOpView::Flush => disk,
    }
}

/// The disk after a list of operations, performed in order.
pub open spec fn run(ops: Seq<StoreOpView>, disk: Disk) -> Disk
    decreases ops.len(),
{
    if ops.len() == 0 {
        disk
    } else {
        apply(ops.last(), run(ops.drop_last(), disk))
    }
}

/// The disk after the metadata row under `key` was taken out.
pub open spec fn without_row(disk: Disk, key: Seq<char>) -> Disk {
    Disk { files: disk.files, rows: disk.rows.remove(key) }
}

/// Whether the three blobs that `info` names are on the disk, in the directory
/// of the circuit stored under `key`.
pub open spec fn has_blobs(
    store: CircuitStore,
    disk: Disk,
    key: Seq<char>,
    info: CircuitInfoView,
) -> bool {
    &&& disk.files.contains_key(store.spec_blob_path(key, info.artifact_path))
    &&& disk.files.contains_key(store.spec_blob_path(key, info.proving_key_path))
    &&& disk.files.contains_key(store.spec_blob_path(key, info.verification_key_path))
}

/// Whether the row under `key` is sound: the key is the hexadecimal rendering
/// of the row's 32-byte identifier, and the row's three blobs are on the disk.
pub open spec fn row_is_sound(store: CircuitStore, disk: Disk, key: Seq<char>) -> bool {
    let info = disk.rows[key];
    &&& info.id.len() == 32
    &&& key == hex_lower(info.id)
    &&& has_blobs(store, disk, key, info)
}

/// The store's invariant: every metadata row is sound.
pub open spec fn blobs_present(store: CircuitStore, disk: Disk) -> bool {
    forall|key: Seq<char>| #[trigger] disk.rows.contains_key(key) ==> row_is_sound(store, disk, key)
}

proof fn lemma_run_next(ops: Seq<StoreOpView>, k: int, disk: Disk)
    requires
        0 <= k < ops.len(),
    ensures
        run(ops.take(k + 1), disk) == apply(ops[k], run(ops.take(k), disk)),
{
    assert(ops.take(k + 1).drop_last() =~= ops.take(k));
}

proof fn lemma_put_trace(
    store: CircuitStore,
    disk: Disk,
    key: Seq<char>,
    info: CircuitInfoView,
    artifact_data: Seq<u8>,
    proving_key_data: Seq<u8>,
    verification_key_data: Seq<u8>,
)
    ensures
        ({
            let ops = store.spec_put(
                key,
                info,
                artifact_data,
                proving_key_data,
                verification_key_data,
            );
            let first = disk.files.insert(
                store.spec_blob_path(key, info.artifact_path),
                artifact_data,
            );
            let second = first.insert(
                store.spec_blob_path(key, info.proving_key_path),
                proving_key_data,
            );
            let third = second.insert(
                store.spec_blob_path(key, info.verification_key_path),
                verification_key_data,
            );
            let stored = Disk { files: third, rows: disk.rows.insert(key, info) };
            &&& ops.len() == 6
            &&& run(ops.take(0), disk) == disk
            &&& run(ops.take(1), disk) == disk
            &&& run(ops.take(2), disk) == Disk { files: first, rows: disk.rows }
            &&& run(ops.take(3), disk) == Disk { files: second, rows: disk.rows }
            &&& run(ops.take(4), disk) == Disk { files: third, rows: disk.rows }
            &&& run(ops.take(5), disk) == stored
            &&& run(ops.take(6), disk) == stored
            &&& run(ops, disk) == stored
        }),
{
    let ops = store.spec_put(key, info, artifact_data, proving_key_data, verification_key_data);
    assert(ops.len() == 6);
    assert(ops.take(0).len() == 0);
    lemma_run_next(ops, 0, disk);
    lemma_run_next(ops, 1, disk);
    lemma_run_next(ops, 2, disk);
    lemma_run_next(ops, 3, disk);
    lemma_run_next(ops, 4, disk);
    lemma_run_next(ops, 5, disk);
    assert(ops.take(6) =~= ops);
}

/// Storing a circuit never breaks the invariant, wherever it is interrupted:
/// if every row is sound before, then every row is sound after any number of
/// the operations, because the blobs are written before the row.
pub proof fn lemma_put_keeps_blobs_present(
    store: CircuitStore,
    disk: Disk,
    info: CircuitInfoView,
    artifact_data: Seq<u8>,
    proving_key_data: Seq<u8>,
    verification_key_data: Seq<u8>,
    done: int,
)
    requires
        blobs_present(store, disk),
        info.id.len() == 32,
        0 <= done <= 6,
    ensures
        blobs_present(
            store,
            run(
                store.spec_put(
                    hex_lower(info.id),
                    info,
                    artifact_data,
                    proving_key_data,
                    verification_key_data,
                ).take(done),
                disk,
            ),
        ),
{
    let key = hex_lower(info.id);
    lemma_put_trace(store, disk, key, info, artifact_data, proving_key_data, verification_key_data);
    let ops = store.spec_put(key, info, artifact_data, proving_key_data, verification_key_data);
    let after = run(ops.take(done), disk);
    assert forall|other: Seq<char>| #[trigger] after.rows.contains_key(other) implies row_is_sound(
        store,
        after,
        other,
    ) by {
        if done >= 5 && other == key {
        } else {
            assert(disk.rows.contains_key(other));
            assert(row_is_sound(store, disk, other));
        }
    }
}

/// Storing a metadata row whose blobs are there never breaks the invariant,
/// wherever it is interrupted.
pub proof fn lemma_store_info_keeps_blobs_present(
    store: CircuitStore,
    disk: Disk,
    info: CircuitInfoView,
    done: int,
)
    requires
        blobs_present(store, disk),
        info.id.len() == 32,
        has_blobs(store, disk, hex_lower(info.id), info),
        0 <= done <= 2,
    ensures
        blobs_present(store, run(info_ops(hex_lower(info.id), info).take(done), disk)),
{
    let key = hex_lower(info.id);
    let ops = info_ops(key, info);
    assert(ops.take(0).len() == 0);
    if done >= 1 {
        lemma_run_next(ops, 0, disk);
    }
    if done >= 2 {
        lemma_run_next(ops, 1, disk);
    }
    let after = run(ops.take(done), disk);
    assert forall|other: Seq<char>| #[trigger] after.rows.contains_key(other) implies row_is_sound(
        store,
        after,
        other,
    ) by {
        if done >= 1 && other == key {
        } else {
            assert(disk.rows.contains_key(other));
            assert(row_is_sound(store, disk, other));
        }
    }
}

/// What was stored can be read back: after all operations of storing a circuit
/// whose three blobs have different names, the row under the circuit's key is
/// the circuit's metadata and the three files hold the three blobs.
pub proof fn lemma_put_then_get(
    store: CircuitStore,
    disk: Disk,
    info: CircuitInfoView,
    artifact_data: Seq<u8>,
    proving_key_data: Seq<u8>,
    verification_key_data: Seq<u8>,
)
    requires
        info.artifact_path != info.proving_key_path,
        info.artifact_path != info.verification_key_path,
        info.proving_key_path != info.verification_key_path,
    ensures
        ({
            let key = hex_lower(info.id);
            let after = run(
                store.spec_put(key, info, artifact_data, proving_key_data, verification_key_data),
                disk,
            );
            &&& after.rows.contains_key(key)
            &&& after.rows[key] == info
            &&& has_blobs(store, after, key, info)
            &&& after.files[store.spec_blob_path(key, info.artifact_path)] == artifact_data
            &&& after.files[store.spec_blob_path(key, info.proving_key_path)] == proving_key_data
            &&& after.files[store.spec_blob_path(key, info.verification_key_path)]
                == verification_key_data
        }),
{
    let key = hex_lower(info.id);
    lemma_put_trace(store, disk, key, info, artifact_data, proving_key_data, verification_key_data);
    let dir = store.spec_circuit_dir(key);
    lemma_join_injective(dir, info.artifact_path, info.proving_key_path);
    lemma_join_injective(dir, info.artifact_path, info.verification_key_path);
    lemma_join_injective(dir, info.proving_key_path, info.verification_key_path);
}

/// Different names in one directory are different locations.
pub proof fn lemma_join_injective(dir: Seq<char>, first: Seq<char>, second: Seq<char>)
    requires
        first != second,
    ensures
        spec_join(dir, first) != spec_join(dir, second),
{
    if spec_join(dir, first) == spec_join(dir, second) {
        assert(spec_join(dir, first).skip(dir.len() as int + 1) =~= first);
        assert(spec_join(dir, second).skip(dir.len() as int + 1) =~= second);
    }
}

/// The blobs of a circuit lie below the directories of no other circuit whose
/// key has the same length.
pub proof fn lemma_blob_of_other_circuit(
    store: CircuitStore,
    key: Seq<char>,
    other: Seq<char>,
    relative: Seq<char>,
)
    requires
        key.len() == other.len(),
        key != other,
    ensures
        !is_below(store.spec_blob_path(other, relative), store.spec_circuit_dir(key)),
{
    let root = store.spec_artifacts_path();
    let path = store.spec_blob_path(other, relative);
    let dir = store.spec_circuit_dir(key);
    if is_below(path, dir) {
        let cut = dir.len() as int + 1;
        let from = root.len() as int + 1;
        let to = from + key.len() as int;
        assert(path.take(cut) == dir + seq!['/']);
        assert(path.take(cut).subrange(from, to) =~= other);
        assert((dir + seq!['/']).subrange(from, to) =~= key);
    }
}

/// Removing a circuit never breaks the invariant, wherever it is interrupted.
/// Once the row of the circuit `id` is out, any number of the operations that
/// follow leaves every other row as it was and sound. Once the circuit's
/// directory is removed, no file is left below it.
pub proof fn lemma_remove_keeps_blobs_present(
    store: CircuitStore,
    disk: Disk,
    id: Seq<u8>,
    dir_exists: bool,
    done: int,
)
    requires
        blobs_present(store, disk),
        id.len() == 32,
        0 <= done <= removal_ops(store.spec_circuit_dir(hex_lower(id)), dir_exists).len(),
    ensures
        ({
            let key = hex_lower(id);
            let dir = store.spec_circuit_dir(key);
            let after = run(removal_ops(dir, dir_exists).take(done), without_row(disk, key));
            &&& blobs_present(store, after)
            &&& after.rows == disk.rows.remove(key)
            &&& dir_exists && done >= 1 ==> forall|path: Seq<char>|
                is_below(path, dir) ==> !after.files.contains_key(path)
        }),
{
    let key = hex_lower(id);
    let dir = store.spec_circuit_dir(key);
    let ops = removal_ops(dir, dir_exists);
    let start = without_row(disk, key);
    assert(ops.take(0).len() == 0);
    if done >= 1 {
        lemma_run_next(ops, 0, start);
    }
    if done >= 2 {
        lemma_run_next(ops, 1, start);
    }
    let after = run(ops.take(done), start);
    assert(after.rows == start.rows);
    assert forall|other: Seq<char>| #[trigger] after.rows.contains_key(other) implies row_is_sound(
        store,
        after,
        other,
    ) by {
        assert(disk.rows.contains_key(other) && other != key);
        assert(row_is_sound(store, disk, other));
        let info = disk.rows[other];
        assert(other.len() == 64 && key.len() == 64);
        lemma_blob_of_other_circuit(store, key, other, info.artifact_path);
        lemma_blob_of_other_circuit(store, key, other, info.proving_key_path);
        lemma_blob_of_other_circuit(store, key, other, info.verification_key_path);
    }
}

} // verus!
