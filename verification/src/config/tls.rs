use vstd::prelude::*;

use crate::server::{Certificate, ParamsModel, PrivateKey, TlsParams};

verus! {

broadcast use vstd::seq::group_seq_axioms;

/// More than one supported private key was found in the credential
/// directory; an ambiguous key selection is never resolved silently.
#[derive(Debug, Clone, Copy, PartialEq, Eq, Structural)]
pub struct DuplicatePrivateKeyError;

impl DuplicatePrivateKeyError {
    /// A human-readable description of the error.
    pub fn message(&self) -> (r: &'static str)
        ensures
            r@ == "More than one private key was provided"@,
    {
        "More than one private key was provided"
    }
}

/// No supported private key was found in the credential directory.
#[derive(Debug, Clone, Copy, PartialEq, Eq, Structural)]
pub struct NoPrivateKeyError;

impl NoPrivateKeyError {
    /// A human-readable description of the error.
    pub fn message(&self) -> (r: &'static str)
        ensures
            r@ == "No private key was provided"@,
    {
        "No private key was provided"
    }
}

/// Why a whole credential load failed.
#[derive(Debug, Clone, Copy, PartialEq, Eq, Structural)]
pub enum LoadError {
    /// More than one supported private key was supplied.
    DuplicatePrivateKey(DuplicatePrivateKeyError),
    /// No supported private key was supplied.
    NoPrivateKey(NoPrivateKeyError),
    /// A file held PEM framing that could not be decoded.
    InvalidPemFile,
}

impl LoadError {
    /// A human-readable description of the failure.
    pub fn message(&self) -> (r: &'static str)
        ensures
            self is DuplicatePrivateKey ==> r@ == "More than one private key was provided"@,
            self is NoPrivateKey ==> r@ == "No private key was provided"@,
            self is InvalidPemFile ==> r@
                == "A credential file held PEM data that could not be decoded"@,
    {
        match self {
            LoadError::DuplicatePrivateKey(e) => e.message(),
            LoadError::NoPrivateKey(e) => e.message(),
            LoadError::InvalidPemFile => "A credential file held PEM data that could not be decoded",
        }
    }
}

/// One PEM block of a credential file, classified: a certificate, a
/// supported (RSA or PKCS8) private key, an unsupported SEC1-encoded EC
/// private key, or anything else. Payloads are the decoded DER bytes.
#[derive(Debug, Clone, PartialEq, Eq)]
pub enum PemItem {
    Certificate(Vec<u8>),
    RsaKey(Vec<u8>),
    Pkcs8Key(Vec<u8>),
    EcKey(Vec<u8>),
    Other,
}

/// The mathematical shape of one classified PEM block.
pub enum PemBlock {
    Certificate(Seq<u8>),
    RsaKey(Seq<u8>),
    Pkcs8Key(Seq<u8>),
    EcKey(Seq<u8>),
    Other,
}

impl View for PemItem {
    type V = PemBlock;

    open spec fn view(&self) -> PemBlock {
        match self {
            PemItem::Certificate(d) => PemBlock::Certificate(d@),
            PemItem::RsaKey(d) => PemBlock::RsaKey(d@),
            PemItem::Pkcs8Key(d) => PemBlock::Pkcs8Key(d@),
            PemItem::EcKey(d) => PemBlock::EcKey(d@),
            PemItem::Other => PemBlock::Other,
        }
    }
}

impl PemBlock {
    /// Whether the block is a certificate.
    pub open spec fn is_certificate(self) -> bool {
        self is Certificate
    }

    /// Whether the block is a private key of a supported encoding.
    pub open spec fn is_supported_key(self) -> bool {
        self is RsaKey || self is Pkcs8Key
    }

    /// The block's decoded payload.
    pub open spec fn data(self) -> Seq<u8> {
        match self {
            PemBlock::Certificate(d) => d,
            PemBlock::RsaKey(d) => d,
            PemBlock::Pkcs8Key(d) => d,
            PemBlock::EcKey(d) => d,
            PemBlock::Other => Seq::empty(),
        }
    }
}

/// The accumulating state of a credential load: the certificate chain in
/// order of appearance, and the private key if one has been recorded.
#[verifier::ext_equal]
pub struct BuilderModel {
    pub certs: Seq<Seq<u8>>,
    pub key: Option<Seq<u8>>,
}

impl BuilderModel {
    /// The state before anything was scanned.
    pub open spec fn empty() -> BuilderModel {
        BuilderModel { certs: Seq::empty(), key: None }
    }
}

/// What recording one classified block does to the accumulated state:
/// certificates extend the chain, a supported key is recorded at most once
/// (a second one is the duplicate-key failure, `None`), EC keys and other
/// blocks change nothing.
pub open spec fn add_block(m: BuilderModel, b: PemBlock) -> Option<BuilderModel> {
    match b {
        PemBlock::Certificate(d) => Some(BuilderModel { certs: m.certs.push(d), ..m }),
        PemBlock::RsaKey(d) => if m.key is None {
            Some(BuilderModel { key: Some(d), ..m })
        } else {
            None
        },
        PemBlock::Pkcs8Key(d) => if m.key is None {
            Some(BuilderModel { key: Some(d), ..m })
        } else {
            None
        },
        PemBlock::EcKey(_) => Some(m),
        PemBlock::Other => Some(m),
    }
}

/// Recording a sequence of blocks in order, stopping at the first duplicate
/// key; `Err` carries the state at the failing block.
pub open spec fn add_blocks(m: BuilderModel, blocks: Seq<PemBlock>) -> Result<
    BuilderModel,
    BuilderModel,
>
    decreases blocks.len(),
{
    if blocks.len() == 0 {
        Ok(m)
    } else {
        match add_blocks(m, blocks.drop_last()) {
            Err(e) => Err(e),
            Ok(m2) => match add_block(m2, blocks.last()) {
                Some(m3) => Ok(m3),
                None => Err(m2),
            },
        }
    }
}

/// What decoding a byte stream as PEM yields: the classified blocks in
/// order of appearance, or nothing when the framing does not decode.
pub uninterp spec fn pem_blocks_of(bytes: Seq<u8>) -> Option<Seq<PemBlock>>;

/// Relies on rustls_pemfile::read_all, which decodes a byte stream as a
/// sequence of PEM sections, classifying each by its BEGIN line, and fails
/// when a section's base64 body does not decode or a section is left
/// unterminated. The outcome is a function of the bytes alone.
#[verifier::external_body]
fn parse_pem(bytes: &[u8]) -> (r: Result<Vec<PemItem>, LoadError>)
    ensures
        match r {
            Ok(items) => pem_blocks_of(bytes@) == Some(items@.map_values(|it: PemItem| it@)),
            Err(e) => pem_blocks_of(bytes@) is None && e == LoadError::InvalidPemFile,
        },
{
    let mut rd: &[u8] = bytes;
    match rustls_pemfile::read_all(&mut rd) {
        Err(_) => Err(LoadError::InvalidPemFile),
        Ok(items) => Ok(
            items.into_iter().map(
                |item| match item {
                    rustls_pemfile::Item::X509Certificate(d) => PemItem::Certificate(d),
                    rustls_pemfile::Item::RSAKey(d) => PemItem::RsaKey(d),
                    rustls_pemfile::Item::PKCS8Key(d) => PemItem::Pkcs8Key(d),
                    rustls_pemfile::Item::ECKey(d) => PemItem::EcKey(d),
                    _ => PemItem::Other,
                },
            ).collect(),
        ),
    }
}

/// Once an early block has failed the fold, later blocks change nothing.
proof fn lemma_add_blocks_err_stable(m: BuilderModel, blocks: Seq<PemBlock>, j: int, l: int)
    requires
        0 <= j <= l <= blocks.len(),
        add_blocks(m, blocks.take(j)) is Err,
    ensures
        add_blocks(m, blocks.take(l)) == add_blocks(m, blocks.take(j)),
    decreases l - j,
{
    if j < l {
        lemma_add_blocks_err_stable(m, blocks, j, l - 1);
        assert(blocks.take(l).drop_last() =~= blocks.take(l - 1));
    } else {
        assert(blocks.take(j) =~= blocks.take(l));
    }
}

/// Accumulates a certificate chain and at most one private key from
/// classified PEM blocks.
#[derive(Debug)]
pub struct TlsParamsBuilder {
    certificates: Vec<Certificate>,
    private_key: Option<PrivateKey>,
}

impl View for TlsParamsBuilder {
    type V = BuilderModel;

    closed spec fn view(&self) -> BuilderModel {
        BuilderModel {
            certs: self.certificates@.map_values(|c: Certificate| c.0@),
            key: match self.private_key {
                Some(k) => Some(k.0@),
                None => None,
            },
        }
    }
}

impl TlsParamsBuilder {
    pub fn new() -> (r: Self)
        ensures
            r@ == BuilderModel::empty(),
    {
        let r = Self { certificates: Vec::new(), private_key: None };
        proof {
            assert(r@.certs =~= BuilderModel::empty().certs);
        }
        r
    }

    /// Records one classified block: appends a certificate to the chain,
    /// stores the first supported private key, fails on a second one, and
    /// ignores EC keys and unrecognized blocks.
    pub fn add_item(&mut self, item: PemItem) -> (r: Result<(), DuplicatePrivateKeyError>)
        ensures
            match add_block(old(self)@, item@) {
                Some(m) => r is Ok && final(self)@ == m,
                None => r is Err && final(self)@ == old(self)@,
            },
    {
        match item {
            PemItem::Certificate(cert) => {
                self.certificates.push(Certificate(cert));
                proof {
                    assert(self@.certs =~= old(self)@.certs.push(self.certificates@.last().0@));
                }
            },
            PemItem::RsaKey(key) => {
                match self.private_key {
                    None => self.private_key = Some(PrivateKey(key)),
                    Some(_) => {
                        return Err(DuplicatePrivateKeyError);
                    },
                }
            },
            PemItem::Pkcs8Key(key) => {
                match self.private_key {
                    None => self.private_key = Some(PrivateKey(key)),
                    Some(_) => {
                        return Err(DuplicatePrivateKeyError);
                    },
                }
            },
            PemItem::EcKey(_) => {},
            PemItem::Other => {},
        }
        Ok(())
    }

    /// Streams one file's bytes as a sequence of PEM blocks and records each
    /// block in order; fails on PEM framing that does not decode, or on a
    /// second supported private key.
    pub fn add_from_file(&mut self, bytes: &[u8]) -> (r: Result<(), LoadError>)
        ensures
            match pem_blocks_of(bytes@) {
                None => r == Err::<(), LoadError>(LoadError::InvalidPemFile) && final(self)@
                    == old(self)@,
                Some(blocks) => match add_blocks(old(self)@, blocks) {
                    Ok(m) => r is Ok && final(self)@ == m,
                    Err(m) => r == Err::<(), LoadError>(
                        LoadError::DuplicatePrivateKey(DuplicatePrivateKeyError),
                    ) && final(self)@ == m,
                },
            },
    {
        let mut items = match parse_pem(bytes) {
            Ok(items) => items,
            Err(e) => {
                return Err(e);
            },
        };
        let ghost blocks = items@.map_values(|it: PemItem| it@);
        let ghost total = blocks.len();
        while items.len() > 0
            invariant
                total == blocks.len(),
                items@.len() <= total,
                blocks.skip(total - items@.len()) =~= items@.map_values(|it: PemItem| it@),
                pem_blocks_of(bytes@) == Some(blocks),
                add_blocks(old(self)@, blocks.take(total - items@.len())) == Ok::<
                    BuilderModel,
                    BuilderModel,
                >(self@),
            decreases items@.len(),
        {
            let ghost items_before = items@;
            let ghost k = total - items_before.len();
            let item = items.remove(0);
            proof {
                assert(blocks.skip(k) == items_before.map_values(|it: PemItem| it@));
                assert(item@ == items_before.map_values(|it: PemItem| it@)[0]);
                assert(blocks.skip(k)[0] == blocks[k]);
                assert(item@ == blocks[k]);
                assert(items@ =~= items_before.subrange(1, items_before.len() as int));
                assert forall|j: int| 0 <= j < items@.len() implies #[trigger] blocks.skip(k + 1)[j]
                    == items@.map_values(|it: PemItem| it@)[j] by {
                    assert(items@[j] == items_before[j + 1]);
                    assert(blocks.skip(k + 1)[j] == blocks[k + 1 + j]);
                    assert(blocks.skip(k)[j + 1] == blocks[k + 1 + j]);
                }
                assert(blocks.skip(k + 1) =~= items@.map_values(|it: PemItem| it@));
                assert(blocks.take(k + 1).drop_last() =~= blocks.take(k));
                assert(blocks.take(k + 1).last() == blocks[k]);
            }
            match self.add_item(item) {
                Ok(()) => {},
                Err(_) => {
                    proof {
                        assert(add_blocks(old(self)@, blocks.take(k + 1)) is Err);
                        lemma_add_blocks_err_stable(old(self)@, blocks, k + 1, blocks.len() as int);
                        assert(blocks.take(blocks.len() as int) =~= blocks);
                    }
                    return Err(LoadError::DuplicatePrivateKey(DuplicatePrivateKeyError));
                },
            }
        }
        proof {
            assert(blocks.take(blocks.len() as int) =~= blocks);
        }
        Ok(())
    }

    /// Finishes the load: the accumulated chain and the single key, or the
    /// no-key failure if none was recorded.
    pub fn complete(self) -> (r: Result<TlsParams, NoPrivateKeyError>)
        ensures
            match self@.key {
                Some(k) => r is Ok && r->Ok_0@.chain == self@.certs && r->Ok_0@.key == k,
                None => r == Err::<TlsParams, NoPrivateKeyError>(NoPrivateKeyError),
            },
    {
        match self.private_key {
            Some(key) => Ok(TlsParams { certificates: self.certificates, private_key: key }),
            None => Err(NoPrivateKeyError),
        }
    }
}

/// One direct entry of the credential directory, as the filesystem hands it
/// to the loader: a subdirectory (skipped with a warning), a file that could
/// not be opened (skipped with a diagnostic), or a file's full contents.
#[derive(Debug, Clone, PartialEq, Eq)]
pub enum DirEntry {
    Subdirectory,
    Unreadable,
    File(Vec<u8>),
}

/// The mathematical shape of one directory entry.
pub enum DirEntryModel {
    Subdirectory,
    Unreadable,
    File(Seq<u8>),
}

impl View for DirEntry {
    type V = DirEntryModel;

    open spec fn view(&self) -> DirEntryModel {
        match self {
            DirEntry::Subdirectory => DirEntryModel::Subdirectory,
            DirEntry::Unreadable => DirEntryModel::Unreadable,
            DirEntry::File(bytes) => DirEntryModel::File(bytes@),
        }
    }
}

/// A directory entry as the scan sees it once files are decoded: an entry
/// that is skipped, a file whose PEM framing does not decode, or a file's
/// classified blocks.
pub enum ScanEntry {
    Skip,
    Invalid,
    Blocks(Seq<PemBlock>),
}

/// What the scan sees of one filesystem entry.
pub open spec fn parsed_entry(e: DirEntryModel) -> ScanEntry {
    match e {
        DirEntryModel::Subdirectory => ScanEntry::Skip,
        DirEntryModel::Unreadable => ScanEntry::Skip,
        DirEntryModel::File(bytes) => match pem_blocks_of(bytes) {
            None => ScanEntry::Invalid,
            Some(blocks) => ScanEntry::Blocks(blocks),
        },
    }
}

/// What scanning one entry does to the accumulated state.
pub open spec fn scan_step(m: BuilderModel, e: ScanEntry) -> Result<BuilderModel, LoadError> {
    match e {
        ScanEntry::Skip => Ok(m),
        ScanEntry::Invalid => Err(LoadError::InvalidPemFile),
        ScanEntry::Blocks(blocks) => match add_blocks(m, blocks) {
            Ok(m2) => Ok(m2),
            Err(_) => Err(LoadError::DuplicatePrivateKey(DuplicatePrivateKeyError)),
        },
    }
}

/// Scanning a directory's entries in order; the first failure ends the scan.
pub open spec fn scan_entries(m: BuilderModel, entries: Seq<ScanEntry>) -> Result<
    BuilderModel,
    LoadError,
>
    decreases entries.len(),
{
    if entries.len() == 0 {
        Ok(m)
    } else {
        match scan_entries(m, entries.drop_last()) {
            Err(e) => Err(e),
            Ok(m2) => scan_step(m2, entries.last()),
        }
    }
}

/// The outcome of a whole load over scanned entries: the accumulated chain
/// and key, or the failure that ended the scan, or the no-key failure.
pub open spec fn load_parsed(entries: Seq<ScanEntry>) -> Result<ParamsModel, LoadError> {
    match scan_entries(BuilderModel::empty(), entries) {
        Err(e) => Err(e),
        Ok(m) => match m.key {
            Some(k) => Ok(ParamsModel { chain: m.certs, key: k }),
            None => Err(LoadError::NoPrivateKey(NoPrivateKeyError)),
        },
    }
}

/// The outcome of loading credentials from a directory's entries.
pub open spec fn load_model(entries: Seq<DirEntryModel>) -> Result<ParamsModel, LoadError> {
    load_parsed(entries.map_values(|e: DirEntryModel| parsed_entry(e)))
}

/// Once an early entry has failed the scan, later entries change nothing.
proof fn lemma_scan_entries_err_stable(m: BuilderModel, entries: Seq<ScanEntry>, j: int, l: int)
    requires
        0 <= j <= l <= entries.len(),
        scan_entries(m, entries.take(j)) is Err,
    ensures
        scan_entries(m, entries.take(l)) == scan_entries(m, entries.take(j)),
    decreases l - j,
{
    if j < l {
        lemma_scan_entries_err_stable(m, entries, j, l - 1);
        assert(entries.take(l).drop_last() =~= entries.take(l - 1));
    } else {
        assert(entries.take(j) =~= entries.take(l));
    }
}

/// Loads TLS credentials from the entries of the configured directory:
/// subdirectories and unreadable files are skipped, every readable file is
/// scanned as a sequence of PEM blocks, and the load yields the certificate
/// chain in scan order together with the single private key — or fails on a
/// duplicate key, on PEM framing that does not decode, or, once everything
/// has been scanned, on the absence of a private key.
pub fn read_params(entries: &Vec<DirEntry>) -> (r: Result<TlsParams, LoadError>)
    ensures
        match r {
            Ok(p) => load_model(entries@.map_values(|d: DirEntry| d@)) == Ok::<
                ParamsModel,
                LoadError,
            >(p@),
            Err(e) => load_model(entries@.map_values(|d: DirEntry| d@)) == Err::<
                ParamsModel,
                LoadError,
            >(e),
        },
{
    let ghost ds = entries@.map_values(|d: DirEntry| d@);
    let ghost ses = ds.map_values(|e: DirEntryModel| parsed_entry(e));
    let mut builder = TlsParamsBuilder::new();
    let n = entries.len();
    let mut i: usize = 0;
    while i < n
        invariant
            i <= n,
            n == entries@.len(),
            ds == entries@.map_values(|d: DirEntry| d@),
            ses == ds.map_values(|e: DirEntryModel| parsed_entry(e)),
            ses.len() == n,
            scan_entries(BuilderModel::empty(), ses.take(i as int)) == Ok::<
                BuilderModel,
                LoadError,
            >(builder@),
        decreases n - i,
    {
        let ghost pre = builder@;
        match &entries[i] {
            DirEntry::Subdirectory => {},
            DirEntry::Unreadable => {},
            DirEntry::File(bytes) => {
                match builder.add_from_file(bytes.as_slice()) {
                    Ok(()) => {},
                    Err(e) => {
                        proof {
                            assert(ses.take(i + 1).drop_last() =~= ses.take(i as int));
                            assert(ses.take(i + 1).last() == ses[i as int]);
                            assert(ses[i as int] == parsed_entry(ds[i as int]));
                            assert(scan_step(pre, ses[i as int]) == Err::<BuilderModel, LoadError>(
                                e,
                            ));
                            assert(scan_entries(BuilderModel::empty(), ses.take(i + 1)) == Err::<
                                BuilderModel,
                                LoadError,
                            >(e));
                            lemma_scan_entries_err_stable(
                                BuilderModel::empty(),
                                ses,
                                i + 1,
                                ses.len() as int,
                            );
                            assert(ses.take(ses.len() as int) =~= ses);
                        }
                        return Err(e);
                    },
                }
            },
        }
        proof {
            assert(ses.take(i + 1).drop_last() =~= ses.take(i as int));
            assert(ses.take(i + 1).last() == ses[i as int]);
            assert(ses[i as int] == parsed_entry(ds[i as int]));
        }
        i = i + 1;
    }
    proof {
        assert(ses.take(ses.len() as int) =~= ses);
    }
    match builder.complete() {
        Ok(params) => Ok(params),
        Err(e) => Err(LoadError::NoPrivateKey(e)),
    }
}

/// The certificate payloads among a sequence of blocks, in order.
pub open spec fn cert_payloads(blocks: Seq<PemBlock>) -> Seq<Seq<u8>>
    decreases blocks.len(),
{
    if blocks.len() == 0 {
        Seq::empty()
    } else {
        cert_payloads(blocks.drop_last()) + (if blocks.last().is_certificate() {
            seq![blocks.last().data()]
        } else {
            Seq::empty()
        })
    }
}

/// The supported private-key payloads among a sequence of blocks, in order.
pub open spec fn key_payloads(blocks: Seq<PemBlock>) -> Seq<Seq<u8>>
    decreases blocks.len(),
{
    if blocks.len() == 0 {
        Seq::empty()
    } else {
        key_payloads(blocks.drop_last()) + (if blocks.last().is_supported_key() {
            seq![blocks.last().data()]
        } else {
            Seq::empty()
        })
    }
}

/// How many supported keys are present in total: those among the blocks and
/// the one the state may already hold.
pub open spec fn total_keys(m: BuilderModel, blocks: Seq<PemBlock>) -> nat {
    key_payloads(blocks).len() + (if m.key is Some {
        1nat
    } else {
        0nat
    })
}

/// The state reached from `m` by recording blocks that hold at most one
/// supported key beyond what `m` already holds.
pub open spec fn combined(m: BuilderModel, blocks: Seq<PemBlock>) -> BuilderModel {
    BuilderModel {
        certs: m.certs + cert_payloads(blocks),
        key: if m.key is Some {
            m.key
        } else if key_payloads(blocks).len() > 0 {
            Some(key_payloads(blocks)[0])
        } else {
            None
        },
    }
}

/// Payloads of concatenated blocks are the concatenated payloads.
proof fn lemma_payloads_concat(a: Seq<PemBlock>, b: Seq<PemBlock>)
    ensures
        cert_payloads(a + b) == cert_payloads(a) + cert_payloads(b),
        key_payloads(a + b) == key_payloads(a) + key_payloads(b),
    decreases b.len(),
{
    if b.len() == 0 {
        assert(a + b =~= a);
        assert(cert_payloads(a) + cert_payloads(b) =~= cert_payloads(a));
        assert(key_payloads(a) + key_payloads(b) =~= key_payloads(a));
    } else {
        lemma_payloads_concat(a, b.drop_last());
        assert((a + b).drop_last() =~= a + b.drop_last());
        assert((a + b).last() == b.last());
        assert(cert_payloads(a + b) =~= cert_payloads(a) + cert_payloads(b));
        assert(key_payloads(a + b) =~= key_payloads(a) + key_payloads(b));
    }
}

/// What a fold over blocks yields, characterized by the keys they hold: with
/// at most one key in total it reaches the combined state; with two or more
/// it fails.
proof fn lemma_add_blocks_characterized(m: BuilderModel, blocks: Seq<PemBlock>)
    ensures
        total_keys(m, blocks) <= 1 ==> add_blocks(m, blocks) == Ok::<BuilderModel, BuilderModel>(
            combined(m, blocks),
        ),
        total_keys(m, blocks) >= 2 ==> add_blocks(m, blocks) is Err,
    decreases blocks.len(),
{
    if blocks.len() == 0 {
        assert(m.certs + cert_payloads(blocks) =~= m.certs);
        assert(combined(m, blocks) =~= m);
    } else {
        let bs = blocks.drop_last();
        let b = blocks.last();
        lemma_add_blocks_characterized(m, bs);
        if total_keys(m, blocks) <= 1 {
            assert(add_blocks(m, bs) == Ok::<BuilderModel, BuilderModel>(combined(m, bs)));
            if b.is_certificate() {
                assert(cert_payloads(blocks) == cert_payloads(bs) + seq![b.data()]);
                assert(key_payloads(blocks) =~= key_payloads(bs));
                assert((m.certs + cert_payloads(bs)).push(b.data()) =~= m.certs + cert_payloads(
                    blocks,
                ));
                assert(combined(m, bs).certs.push(b.data()) =~= combined(m, blocks).certs);
                assert(add_block(combined(m, bs), b) == Some(combined(m, blocks)));
            } else if b.is_supported_key() {
                assert(key_payloads(blocks) == key_payloads(bs) + seq![b.data()]);
                assert(key_payloads(bs).len() == 0);
                assert(m.key is None);
                assert(combined(m, bs).key is None);
                assert(cert_payloads(blocks) =~= cert_payloads(bs));
                assert(key_payloads(blocks)[0] == b.data());
                assert(add_block(combined(m, bs), b) is Some);
                assert(add_block(combined(m, bs), b)->0 =~= combined(m, blocks));
            } else {
                assert(cert_payloads(blocks) =~= cert_payloads(bs));
                assert(key_payloads(blocks) =~= key_payloads(bs));
                assert(add_block(combined(m, bs), b) == Some(combined(m, bs)));
                assert(combined(m, bs) =~= combined(m, blocks));
            }
        }
        if total_keys(m, blocks) >= 2 {
            if b.is_supported_key() {
                assert(key_payloads(blocks) == key_payloads(bs) + seq![b.data()]);
            } else {
                assert(key_payloads(blocks) =~= key_payloads(bs));
            }
            if total_keys(m, bs) >= 2 {
                assert(add_blocks(m, blocks) is Err);
            } else {
                assert(b.is_supported_key());
                assert(total_keys(m, bs) == 1);
                assert(combined(m, bs).key is Some);
                assert(add_block(combined(m, bs), b) is None);
            }
        }
    }
}

/// Every block of a scan's entries, in scan order then appearance order.
pub open spec fn all_blocks(entries: Seq<ScanEntry>) -> Seq<PemBlock>
    decreases entries.len(),
{
    if entries.len() == 0 {
        Seq::empty()
    } else {
        all_blocks(entries.drop_last()) + entry_blocks(entries.last())
    }
}

/// The blocks one scanned entry contributes.
pub open spec fn entry_blocks(e: ScanEntry) -> Seq<PemBlock> {
    match e {
        ScanEntry::Blocks(bs) => bs,
        ScanEntry::Skip => Seq::empty(),
        ScanEntry::Invalid => Seq::empty(),
    }
}

/// Whether every file among the scanned entries decoded as PEM.
pub open spec fn all_decodable(entries: Seq<ScanEntry>) -> bool {
    forall|i: int| 0 <= i < entries.len() ==> !((#[trigger] entries[i]) is Invalid)
}

/// What a whole scan yields, characterized by the keys its entries hold:
/// with exactly or fewer than one key in total it reaches the combined
/// state; with two or more it fails as a duplicate.
proof fn lemma_scan_characterized(m: BuilderModel, entries: Seq<ScanEntry>)
    requires
        all_decodable(entries),
    ensures
        total_keys(m, all_blocks(entries)) <= 1 ==> scan_entries(m, entries) == Ok::<
            BuilderModel,
            LoadError,
        >(combined(m, all_blocks(entries))),
        total_keys(m, all_blocks(entries)) >= 2 ==> scan_entries(m, entries) == Err::<
            BuilderModel,
            LoadError,
        >(LoadError::DuplicatePrivateKey(DuplicatePrivateKeyError)),
    decreases entries.len(),
{
    if entries.len() == 0 {
        assert(m.certs + cert_payloads(all_blocks(entries)) =~= m.certs);
        assert(combined(m, all_blocks(entries)) =~= m);
    } else {
        let es = entries.drop_last();
        let e = entries.last();
        assert(all_decodable(es)) by {
            assert(forall|i: int| 0 <= i < es.len() ==> es[i] == entries[i]);
        }
        lemma_scan_characterized(m, es);
        lemma_payloads_concat(all_blocks(es), entry_blocks(e));
        assert(all_blocks(entries) == all_blocks(es) + entry_blocks(e));
        let c = combined(m, all_blocks(es));
        if total_keys(m, all_blocks(es)) <= 1 {
            lemma_add_blocks_characterized(c, entry_blocks(e));
            assert(total_keys(c, entry_blocks(e)) == total_keys(m, all_blocks(entries)));
            if total_keys(m, all_blocks(entries)) <= 1 {
                assert(combined(c, entry_blocks(e)).certs =~= combined(
                    m,
                    all_blocks(entries),
                ).certs);
                assert(combined(c, entry_blocks(e)) =~= combined(m, all_blocks(entries)));
                match e {
                    ScanEntry::Skip => {
                        assert(entry_blocks(e) =~= Seq::<PemBlock>::empty());
                        assert(c.certs + cert_payloads(entry_blocks(e)) =~= c.certs);
                        assert(combined(c, entry_blocks(e)) =~= c);
                    },
                    ScanEntry::Invalid => {
                        assert(false);
                    },
                    ScanEntry::Blocks(bs) => {},
                }
            }
        } else {
            assert(total_keys(m, all_blocks(entries)) >= 2) by {
                assert(key_payloads(all_blocks(entries)).len() >= key_payloads(
                    all_blocks(es),
                ).len());
            }
        }
    }
}

/// Law: when every file decodes and the directory's files hold at least one
/// certificate block and exactly one supported private key block — across
/// any number of files, in any split — the load succeeds; the chain is the
/// certificate payloads in scan order then in-file appearance order, and the
/// key is the sole supplied key.
pub proof fn lemma_load_unique_key(entries: Seq<ScanEntry>)
    requires
        all_decodable(entries),
        key_payloads(all_blocks(entries)).len() == 1,
        cert_payloads(all_blocks(entries)).len() >= 1,
    ensures
        load_parsed(entries) == Ok::<ParamsModel, LoadError>(
            ParamsModel {
                chain: cert_payloads(all_blocks(entries)),
                key: key_payloads(all_blocks(entries))[0],
            },
        ),
{
    lemma_scan_characterized(BuilderModel::empty(), entries);
    assert(Seq::<Seq<u8>>::empty() + cert_payloads(all_blocks(entries)) =~= cert_payloads(
        all_blocks(entries),
    ));
}

/// Law: when every file decodes and the directory's files hold no supported
/// private key — certificates only, or nothing at all — the load fails for
/// want of a private key.
pub proof fn lemma_load_no_key(entries: Seq<ScanEntry>)
    requires
        all_decodable(entries),
        key_payloads(all_blocks(entries)).len() == 0,
    ensures
        load_parsed(entries) == Err::<ParamsModel, LoadError>(
            LoadError::NoPrivateKey(NoPrivateKeyError),
        ),
{
    lemma_scan_characterized(BuilderModel::empty(), entries);
}

/// Law: when every file decodes and the directory's files hold two or more
/// supported private keys — within one file or split across files — the load
/// fails as a duplicate key, wherever the second key stands.
pub proof fn lemma_load_duplicate_key(entries: Seq<ScanEntry>)
    requires
        all_decodable(entries),
        key_payloads(all_blocks(entries)).len() >= 2,
    ensures
        load_parsed(entries) == Err::<ParamsModel, LoadError>(
            LoadError::DuplicatePrivateKey(DuplicatePrivateKeyError),
        ),
{
    lemma_scan_characterized(BuilderModel::empty(), entries);
}

/// A skipped entry leaves any scan exactly where it was.
proof fn lemma_scan_skip_inserted(m: BuilderModel, a: Seq<ScanEntry>, b: Seq<ScanEntry>)
    ensures
        scan_entries(m, a + seq![ScanEntry::Skip] + b) == scan_entries(m, a + b),
    decreases b.len(),
{
    if b.len() == 0 {
        assert(a + b =~= a);
        assert((a + seq![ScanEntry::Skip] + b) =~= a + seq![ScanEntry::Skip]);
        assert((a + seq![ScanEntry::Skip]).drop_last() =~= a);
        assert((a + seq![ScanEntry::Skip]).last() == ScanEntry::Skip);
    } else {
        lemma_scan_skip_inserted(m, a, b.drop_last());
        assert((a + seq![ScanEntry::Skip] + b).drop_last() =~= a + seq![ScanEntry::Skip]
            + b.drop_last());
        assert((a + b).drop_last() =~= a + b.drop_last());
        assert((a + seq![ScanEntry::Skip] + b).last() == b.last());
        assert((a + b).last() == b.last());
    }
}

/// Law: a directory entry that is a subdirectory, or a file that cannot be
/// opened, is skipped without affecting the outcome of loading its siblings,
/// wherever among them it stands.
pub proof fn lemma_skipped_entry_no_effect(
    a: Seq<DirEntryModel>,
    e: DirEntryModel,
    b: Seq<DirEntryModel>,
)
    requires
        e is Subdirectory || e is Unreadable,
    ensures
        load_model(a + seq![e] + b) == load_model(a + b),
{
    let f = |d: DirEntryModel| parsed_entry(d);
    assert((a + seq![e] + b).map_values(f) =~= a.map_values(f) + seq![ScanEntry::Skip]
        + b.map_values(f));
    assert((a + b).map_values(f) =~= a.map_values(f) + b.map_values(f));
    lemma_scan_skip_inserted(BuilderModel::empty(), a.map_values(f), b.map_values(f));
}

/// Blocks of which none is a supported key contribute no key payloads.
proof fn lemma_no_supported_keys(blocks: Seq<PemBlock>)
    requires
        forall|i: int| 0 <= i < blocks.len() ==> !(#[trigger] blocks[i]).is_supported_key(),
    ensures
        key_payloads(blocks).len() == 0,
    decreases blocks.len(),
{
    if blocks.len() > 0 {
        assert(forall|i: int|
            0 <= i < blocks.drop_last().len() ==> blocks.drop_last()[i] == blocks[i]);
        lemma_no_supported_keys(blocks.drop_last());
        assert(!blocks.last().is_supported_key());
    }
}

/// Law: a directory whose only file holds nothing but EC-encoded private
/// keys still fails for want of a private key: EC keys never satisfy the
/// key requirement.
pub proof fn lemma_ec_keys_never_satisfy(blocks: Seq<PemBlock>)
    requires
        blocks.len() >= 1,
        forall|i: int| 0 <= i < blocks.len() ==> (#[trigger] blocks[i]) is EcKey,
    ensures
        load_parsed(seq![ScanEntry::Blocks(blocks)]) == Err::<ParamsModel, LoadError>(
            LoadError::NoPrivateKey(NoPrivateKeyError),
        ),
{
    lemma_no_supported_keys(blocks);
    let entries = seq![ScanEntry::Blocks(blocks)];
    assert(entries.drop_last() =~= Seq::<ScanEntry>::empty());
    assert(all_blocks(Seq::<ScanEntry>::empty()) =~= Seq::<PemBlock>::empty());
    assert(entries.last() == ScanEntry::Blocks(blocks));
    assert(all_blocks(entries) == all_blocks(entries.drop_last()) + entry_blocks(entries.last()));
    assert(all_blocks(entries) =~= blocks);
    lemma_load_no_key(entries);
}

} // verus!
