//! Layout of the persistent circuit store, and the disk operations that keep it
//! consistent.
//!
//! The store keeps one metadata row per circuit, keyed by the hexadecimal
//! rendering of the circuit identifier, and one directory per circuit with its
//! three blobs. This module decides where things lie and in which order they
//! are written and removed; performing the operations is left to the caller.

use crate::digest::{hex_decode_32, hex_encode, hex_lower, lemma_hex_lower_is_ascii};
use crate::error::Error;
use crate::types::{CircuitId, CircuitInfo, CircuitInfoView};
use vstd::prelude::*;
use vstd::slice::slice_to_vec;
use vstd::utf8::encode_utf8;

verus! {

/// Directory, below the base directory, of the metadata database.
pub const DB_SUBDIR: &'static str = "circuit_db";

/// Directory, below the base directory, of the per-circuit blob directories.
pub const ARTIFACTS_SUBDIR: &'static str = "artifacts";

/// Name of the metadata table inside the database.
pub const INFO_TREE_NAME: &'static str = "circuit_info";

/// The location `name` inside the directory `dir`.
pub open spec fn spec_join(dir: Seq<char>, name: Seq<char>) -> Seq<char> {
    dir + seq!['/'] + name
}

/// The location `name` inside the directory `dir`.
pub fn join(dir: &str, name: &str) -> (out: String)
    ensures
        out@ == spec_join(dir@, name@),
{
    proof {
        reveal_strlit("/");
    }
    let mut out = String::from_str(dir);
    out.append("/");
    out.append(name);
    assert(out@ =~= spec_join(dir@, name@));
    out
}

/// One step of work on the disk.
#[derive(Debug, Clone)]
pub enum StoreOp {
    /// Create the directory and its missing ancestors.
    CreateDirAll { dir: String },
    /// Write the file, replacing what it held.
    WriteFile { path: String, data: Vec<u8> },
    /// Insert the metadata row, replacing the row under the same key.
    InsertInfo { key: String, info: CircuitInfo },
    /// Remove the directory with everything below it.
    RemoveDirAll { dir: String },
    /// Make the metadata durable.
    Flush,
}

/// Mathematical content of a [`StoreOp`].
pub enum StoreOpView {
    CreateDirAll { dir: Seq<char> },
    WriteFile { path: Seq<char>, data: Seq<u8> },
    InsertInfo { key: Seq<char>, info: CircuitInfoView },
    RemoveDirAll { dir: Seq<char> },
    Flush,
}

impl View for StoreOp {
    type V = StoreOpView;

    open spec fn view(&self) -> StoreOpView {
        match self {
            StoreOp::CreateDirAll { dir } => StoreOpView::CreateDirAll { dir: dir@ },
            StoreOp::WriteFile { path, data } => StoreOpView::WriteFile { path: path@, data: data@ },
            StoreOp::InsertInfo { key, info } => StoreOpView::InsertInfo { key: key@, info: info@ },
            StoreOp::RemoveDirAll { dir } => StoreOpView::RemoveDirAll { dir: dir@ },
            StoreOp::Flush => StoreOpView::Flush,
        }
    }
}

/// The mathematical content of a list of operations.
pub open spec fn op_views(ops: Seq<StoreOp>) -> Seq<StoreOpView> {
    Seq::new(ops.len(), |k: int| ops[k]@)
}

/// The operations that store three blobs in the directory `dir`: create the
/// directory, then write the artifact, the proving key and the verification key.
pub open spec fn artifact_ops(
    dir: Seq<char>,
    artifact_filename: Seq<char>,
    artifact_data: Seq<u8>,
    pk_filename: Seq<char>,
    proving_key_data: Seq<u8>,
    vk_filename: Seq<char>,
    verification_key_data: Seq<u8>,
) -> Seq<StoreOpView> {
    seq![
        StoreOpView::CreateDirAll { dir },
        StoreOpView::WriteFile { path: spec_join(dir, artifact_filename), data: artifact_data },
        StoreOpView::WriteFile { path: spec_join(dir, pk_filename), data: proving_key_data },
        StoreOpView::WriteFile { path: spec_join(dir, vk_filename), data: verification_key_data },
    ]
}

/// The operations that store a metadata row: insert it, then flush.
pub open spec fn info_ops(key: Seq<char>, info: CircuitInfoView) -> Seq<StoreOpView> {
    seq![StoreOpView::InsertInfo { key, info }, StoreOpView::Flush]
}

/// The operations that follow the removal of a metadata row: remove the
/// circuit's directory if there is one, then flush.
pub open spec fn removal_ops(dir: Seq<char>, dir_exists: bool) -> Seq<StoreOpView> {
    if dir_exists {
        seq![StoreOpView::RemoveDirAll { dir }, StoreOpView::Flush]
    } else {
        seq![StoreOpView::Flush]
    }
}

/// What is reported when a metadata row is to be stored without its blobs.
pub open spec fn missing_blobs_text() -> Seq<char> {
    "Circuit blobs are missing"@
}

/// A copy of `info`.
pub fn copy_info(info: &CircuitInfo) -> (out: CircuitInfo)
    ensures
        out@ == info@,
        out.id == info.id,
{
    CircuitInfo {
        id: info.id,
        name: info.name.clone(),
        circuit_type: info.circuit_type,
        proving_backend: info.proving_backend,
        artifact_path: info.artifact_path.clone(),
        proving_key_path: info.proving_key_path.clone(),
        verification_key_path: info.verification_key_path.clone(),
        verifier_address: info.verifier_address,
    }
}

/// Where the circuit store keeps what.
#[derive(Debug, Clone)]
pub struct CircuitStore {
    base_path: String,
    db_path: String,
    artifacts_path: String,
}

impl CircuitStore {
    /// Whether the two directories lie where the layout puts them.
    pub closed spec fn wf(self) -> bool {
        &&& self.db_path@ == spec_join(self.base_path@, DB_SUBDIR@)
        &&& self.artifacts_path@ == spec_join(self.base_path@, ARTIFACTS_SUBDIR@)
    }

    /// The directory the store is rooted at.
    pub closed spec fn base(self) -> Seq<char> {
        self.base_path@
    }

    /// The directory of the metadata database.
    pub open spec fn spec_db_path(self) -> Seq<char> {
        spec_join(self.base(), DB_SUBDIR@)
    }

    /// The directory that holds the per-circuit directories.
    pub open spec fn spec_artifacts_path(self) -> Seq<char> {
        spec_join(self.base(), ARTIFACTS_SUBDIR@)
    }

    /// The directory of the circuit stored under `key`.
    pub open spec fn spec_circuit_dir(self, key: Seq<char>) -> Seq<char> {
        spec_join(self.spec_artifacts_path(), key)
    }

    /// The location of a blob of the circuit stored under `key`.
    pub open spec fn spec_blob_path(self, key: Seq<char>, relative: Seq<char>) -> Seq<char> {
        spec_join(self.spec_circuit_dir(key), relative)
    }

    /// Lays out a store rooted at `base_path`.
    pub fn new(base_path: String) -> (out: Self)
        ensures
            out.wf(),
            out.base() == base_path@,
    {
        let db_path = join(base_path.as_str(), DB_SUBDIR);
        let artifacts_path = join(base_path.as_str(), ARTIFACTS_SUBDIR);
        CircuitStore { base_path, db_path, artifacts_path }
    }

    /// The directories that must exist before the store is used: the one of
    /// the database, then the one of the blobs.
    pub fn directories(&self) -> (out: Vec<StoreOp>)
        requires
            self.wf(),
        ensures
            op_views(out@) == seq![
                StoreOpView::CreateDirAll { dir: self.spec_db_path() },
                StoreOpView::CreateDirAll { dir: self.spec_artifacts_path() },
            ],
    {
        let mut out: Vec<StoreOp> = Vec::new();
        out.push(StoreOp::CreateDirAll { dir: self.db_path.clone() });
        out.push(StoreOp::CreateDirAll { dir: self.artifacts_path.clone() });
        assert(op_views(out@) =~= seq![
            StoreOpView::CreateDirAll { dir: self.spec_db_path() },
            StoreOpView::CreateDirAll { dir: self.spec_artifacts_path() },
        ]);
        out
    }

    /// The directory of the metadata database.
    pub fn get_db_path(&self) -> (out: &str)
        requires
            self.wf(),
        ensures
            out@ == self.spec_db_path(),
    {
        self.db_path.as_str()
    }

    /// The directory that holds the per-circuit directories.
    pub fn get_artifacts_base_path(&self) -> (out: &str)
        requires
            self.wf(),
        ensures
            out@ == self.spec_artifacts_path(),
    {
        self.artifacts_path.as_str()
    }

    /// Plans the storing of a circuit's three blobs in its directory.
    pub fn store_circuit_artifacts(
        &self,
        circuit_id_hex: &str,
        artifact_filename: &str,
        artifact_data: &[u8],
        pk_filename: &str,
        proving_key_data: &[u8],
        vk_filename: &str,
        verification_key_data: &[u8],
    ) -> (out: Vec<StoreOp>)
        requires
            self.wf(),
        ensures
            op_views(out@) == artifact_ops(
                self.spec_circuit_dir(circuit_id_hex@),
                artifact_filename@,
                artifact_data@,
                pk_filename@,
                proving_key_data@,
                vk_filename@,
                verification_key_data@,
            ),
    {
        let dir = join(self.artifacts_path.as_str(), circuit_id_hex);
        let artifact_file = join(dir.as_str(), artifact_filename);
        let pk_file = join(dir.as_str(), pk_filename);
        let vk_file = join(dir.as_str(), vk_filename);
        let mut out: Vec<StoreOp> = Vec::new();
        out.push(StoreOp::CreateDirAll { dir });
        out.push(StoreOp::WriteFile { path: artifact_file, data: slice_to_vec(artifact_data) });
        out.push(StoreOp::WriteFile { path: pk_file, data: slice_to_vec(proving_key_data) });
        out.push(StoreOp::WriteFile { path: vk_file, data: slice_to_vec(verification_key_data) });
        assert(op_views(out@) =~= artifact_ops(
            self.spec_circuit_dir(circuit_id_hex@),
            artifact_filename@,
            artifact_data@,
            pk_filename@,
            proving_key_data@,
            vk_filename@,
            verification_key_data@,
        ));
        out
    }

    /// Plans the storing of a circuit's metadata under `circuit_id_hex`.
    ///
    /// The key must be the hexadecimal rendering of the circuit's identifier,
    /// else the request is an internal error. `blobs_present` tells whether the
    /// three files that the metadata names are in the circuit's directory; a
    /// row without its blobs is refused as a state error. Else the row is
    /// inserted and the metadata flushed.
    pub fn store_circuit_info(
        &self,
        circuit_id_hex: &str,
        info: &CircuitInfo,
        blobs_present: bool,
    ) -> (out: Result<Vec<StoreOp>, Error>)
        ensures
            if circuit_id_hex@ != hex_lower(info.id@) {
                &&& out matches Err(Error::Internal(text))
                &&& text@ == "Circuit ID mismatch during storage"@
            } else if !blobs_present {
                &&& out matches Err(Error::StateError(text))
                &&& text@ == missing_blobs_text()
            } else {
                &&& out matches Ok(ops)
                &&& op_views(ops@) == info_ops(circuit_id_hex@, info@)
            },
    {
        let expected = hex_encode(info.id.as_slice());
        let given = circuit_id_hex.to_owned();
        if !(expected == given) {
            return Err(Error::Internal(String::from_str("Circuit ID mismatch during storage")));
        }
        if !blobs_present {
            return Err(Error::StateError(String::from_str("Circuit blobs are missing")));
        }
        let mut out: Vec<StoreOp> = Vec::new();
        out.push(StoreOp::InsertInfo { key: given, info: copy_info(info) });
        out.push(StoreOp::Flush);
        assert(op_views(out@) =~= info_ops(circuit_id_hex@, info@));
        Ok(out)
    }

    /// Everything it takes to store the circuit of `info` under `key`: its
    /// blobs under the names that its metadata gives them, then its metadata row.
    pub open spec fn spec_put(
        self,
        key: Seq<char>,
        info: CircuitInfoView,
        artifact_data: Seq<u8>,
        proving_key_data: Seq<u8>,
        verification_key_data: Seq<u8>,
    ) -> Seq<StoreOpView> {
        artifact_ops(
            self.spec_circuit_dir(key),
            info.artifact_path,
            artifact_data,
            info.proving_key_path,
            proving_key_data,
            info.verification_key_path,
            verification_key_data,
        ) + info_ops(key, info)
    }

    /// Plans the storing of a circuit with its three blobs: blobs first,
    /// metadata second, flush last. The circuit is stored under the hexadecimal
    /// rendering of its identifier.
    pub fn put(
        &self,
        info: &CircuitInfo,
        artifact_data: &[u8],
        proving_key_data: &[u8],
        verification_key_data: &[u8],
    ) -> (out: Vec<StoreOp>)
        requires
            self.wf(),
        ensures
            op_views(out@) == self.spec_put(
                hex_lower(info.id@),
                info@,
                artifact_data@,
                proving_key_data@,
                verification_key_data@,
            ),
    {
        let key = hex_encode(info.id.as_slice());
        let mut out = self.store_circuit_artifacts(
            key.as_str(),
            info.artifact_path.as_str(),
            artifact_data,
            info.proving_key_path.as_str(),
            proving_key_data,
            info.verification_key_path.as_str(),
            verification_key_data,
        );
        let ghost blob_part = op_views(out@);
        out.push(StoreOp::InsertInfo { key, info: copy_info(info) });
        out.push(StoreOp::Flush);
        assert(op_views(out@) =~= blob_part + info_ops(hex_lower(info.id@), info@));
        out
    }

    /// The file that holds the circuit's artifact.
    pub fn artifact_file(&self, info: &CircuitInfo) -> (out: String)
        requires
            self.wf(),
        ensures
            out@ == self.spec_blob_path(hex_lower(info.id@), info.artifact_path@),
    {
        let key = hex_encode(info.id.as_slice());
        let dir = join(self.artifacts_path.as_str(), key.as_str());
        join(dir.as_str(), info.artifact_path.as_str())
    }

    /// The file that holds the circuit's proving key.
    pub fn proving_key_file(&self, info: &CircuitInfo) -> (out: String)
        requires
            self.wf(),
        ensures
            out@ == self.spec_blob_path(hex_lower(info.id@), info.proving_key_path@),
    {
        let key = hex_encode(info.id.as_slice());
        let dir = join(self.artifacts_path.as_str(), key.as_str());
        join(dir.as_str(), info.proving_key_path.as_str())
    }

    /// The file that holds the circuit's verification key.
    pub fn verification_key_file(&self, info: &CircuitInfo) -> (out: String)
        requires
            self.wf(),
        ensures
            out@ == self.spec_blob_path(hex_lower(info.id@), info.verification_key_path@),
    {
        let key = hex_encode(info.id.as_slice());
        let dir = join(self.artifacts_path.as_str(), key.as_str());
        join(dir.as_str(), info.verification_key_path.as_str())
    }

    /// Plans what follows the removal of a circuit's metadata row.
    ///
    /// `removed` is the row that was taken out of the metadata table, if there
    /// was one, and `dir_exists` tells whether the circuit's directory exists.
    /// Where a row was removed, the directory is removed next, if it exists, and
    /// the metadata is flushed; the removed row is handed back. Where there was
    /// no row, nothing is left to do.
    pub fn remove_circuit(
        &self,
        id: &CircuitId,
        removed: Option<CircuitInfo>,
        dir_exists: bool,
    ) -> (out: (Option<CircuitInfo>, Vec<StoreOp>))
        requires
            self.wf(),
        ensures
            out.0 == removed,
            removed is Some ==> op_views(out.1@) == removal_ops(
                self.spec_circuit_dir(hex_lower(id@)),
                dir_exists,
            ),
            removed is None ==> out.1@.len() == 0,
    {
        let mut ops: Vec<StoreOp> = Vec::new();
        if removed.is_some() {
            if dir_exists {
                let key = hex_encode(id.as_slice());
                ops.push(StoreOp::RemoveDirAll { dir: join(self.artifacts_path.as_str(), key.as_str()) });
            }
            ops.push(StoreOp::Flush);
            assert(op_views(ops@) =~= removal_ops(
                self.spec_circuit_dir(hex_lower(id@)),
                dir_exists,
            ));
        }
        (removed, ops)
    }

    /// Reads the keys of the metadata table as circuit identifiers.
    ///
    /// A key that is the lowercase hexadecimal rendering of 32 bytes yields
    /// those bytes. Any other key has no business in the table and yields a
    /// state error in its place.
    pub fn list_circuit_ids(&self, keys: &Vec<Vec<u8>>) -> (out: Vec<Result<CircuitId, Error>>)
        ensures
            out@.len() == keys@.len(),
            forall|k: int| 0 <= k < keys@.len() ==> is_listed_as(keys@[k]@, #[trigger] out@[k]),
    {
        let mut out: Vec<Result<CircuitId, Error>> = Vec::new();
        let mut k: usize = 0;
        while k < keys.len()
            invariant
                k <= keys.len(),
                out@.len() == k,
                forall|j: int| 0 <= j < k ==> is_listed_as(keys@[j]@, #[trigger] out@[j]),
            decreases keys.len() - k,
        {
            let item = match hex_decode_32(keys[k].as_slice()) {
                Some(id) => {
                    proof {
                        lemma_hex_lower_is_ascii(id@);
                    }
                    Ok(id)
                },
                None => {
                    assert forall|id: Seq<u8>| id.len() == 32 implies encode_utf8(hex_lower(id))
                        != keys@[k as int]@ by {
                        lemma_hex_lower_is_ascii(id);
                    }
                    Err(Error::StateError(String::from_str("Invalid key in DB")))
                },
            };
            out.push(item);
            k = k + 1;
        }
        out
    }
}

/// Whether `item` is what the key `key` of the metadata table is listed as:
/// the identifier whose hexadecimal rendering the key is, in UTF-8, or a state
/// error if the key is no such rendering of 32 bytes.
pub open spec fn is_listed_as(key: Seq<u8>, item: Result<CircuitId, Error>) -> bool {
    match item {
        Ok(id) => encode_utf8(hex_lower(id@)) == key,
        Err(e) => {
            &&& e matches Error::StateError(text)
            &&& text@ == "Invalid key in DB"@
            &&& forall|id: Seq<u8>| id.len() == 32 ==> encode_utf8(hex_lower(id)) != key
        },
    }
}

} // verus!
