//! The host key of the SSH server: loaded if there is one, else generated and saved, so that
//! clients find the same key again after a restart.
use crate::platform::Platform;
use russh_keys::PublicKeyBase64;
use vstd::prelude::*;

verus! {

/// Default path for persistent SSH host key
pub const DEFAULT_HOST_KEY_PATH: &'static str = "/etc/warlock/ssh/ssh_host_ed25519_key";

/// `russh_keys::key::KeyPair`, a private key with its public key.
#[verifier::external_type_specification]
#[verifier::external_body]
pub struct ExKeyPair(russh_keys::key::KeyPair);

/// The bytes that `russh_keys::PublicKeyBase64::public_key_bytes` writes for a
/// `russh_keys::key::KeyPair`. Only for an Ed25519 pair are they the public key in SSH wire
/// format.
pub uninterp spec fn pair_public(pair: russh_keys::key::KeyPair) -> Seq<u8>;

/// `russh_keys::PublicKeyBase64::public_key_bytes` writes bytes for the public key of a pair;
/// the result depends on the pair alone.
#[verifier::external_body]
fn public_bytes(pair: &russh_keys::key::KeyPair) -> (r: Vec<u8>)
    ensures
        r@ == pair_public(*pair),
{
    pair.public_key_bytes()
}

/// A host key: the pair that the server signs with, and the bytes that
/// `russh_keys::PublicKeyBase64::public_key_bytes` writes for it.
pub struct HostKey {
    pub pair: russh_keys::key::KeyPair,
    pub public: Vec<u8>,
}

impl HostKey {
    /// The public bytes are those of the pair.
    pub open spec fn wf(self) -> bool {
        self.public@ == pair_public(self.pair)
    }

    /// The host key with the given pair.
    pub fn new(pair: russh_keys::key::KeyPair) -> (r: HostKey)
        ensures
            r.wf(),
            r.pair == pair,
    {
        let public = public_bytes(&pair);
        HostKey { pair, public }
    }
}

/// What of a key goes into its file.
pub enum KeyMaterial {
    /// The 32 bytes of the private key, and those of the public key.
    Ed25519 { secret: Vec<u8>, public: Vec<u8> },
    /// A key of another kind.
    Other,
}

/// What stands at the path of the host key.
pub enum StoredKey {
    Absent,
    Unreadable,
    Text(String),
}

/// An Ed25519 public key in SSH wire format: the name of the algorithm and the key, each
/// behind its length.
pub open spec fn ed25519_blob(public: Seq<u8>) -> Seq<u8> {
    seq![0u8, 0, 0, 11] + seq![115u8, 115, 104, 45, 101, 100, 50, 53, 53, 49, 57] + seq![
        0u8,
        0,
        0,
        32,
    ] + public
}

/// Whether these are the bytes of the Ed25519 pair.
pub open spec fn is_ed25519_key(
    pair: russh_keys::key::KeyPair,
    material: KeyMaterial,
) -> bool {
    &&& material matches KeyMaterial::Ed25519 { secret, public }
    &&& secret@.len() == 32
    &&& public@.len() == 32
    &&& pair_public(pair) == ed25519_blob(public@)
}

/// Whether these are the bytes of the Ed25519 pair, and both its files can be written.
pub open spec fn is_new_key(pair: russh_keys::key::KeyPair, material: KeyMaterial) -> bool {
    is_ed25519_key(pair, material) && private_text(material) is Ok && public_text(material) is Ok
}

/// What `russh_keys::decode_secret_key` makes of a text without a password: the public bytes
/// of the pair that it holds, if it holds one.
pub uninterp spec fn stored_public(text: Seq<char>) -> Option<Seq<u8>>;

/// The OpenSSH private key file that `ssh_key::PrivateKey::to_openssh` writes, with line
/// feeds, for the Ed25519 key whose private and public bytes are given one behind the other;
/// or what is reported if it writes none.
pub uninterp spec fn openssh_private(bytes: Seq<u8>) -> Result<Seq<char>, Seq<char>>;

/// Whether a text is the private key file of the Ed25519 key of these bytes.
pub open spec fn is_private_file(text: Seq<char>, bytes: Seq<u8>) -> bool {
    openssh_private(bytes) == Ok::<Seq<char>, Seq<char>>(text)
}

/// Whether a text that is the private key file of an Ed25519 key was read as that key.
pub open spec fn reads_back(text: Seq<char>, r: Option<russh_keys::key::KeyPair>) -> bool {
    forall|bytes: Seq<u8>|
        #[trigger] is_private_file(text, bytes) ==> (r matches Some(pair) && pair_public(pair)
            == ed25519_blob(bytes.skip(32)))
}

/// The line that `ssh_key::PublicKey::to_openssh` writes for the Ed25519 key whose private and
/// public bytes are given one behind the other; or what is reported if it writes none.
pub uninterp spec fn openssh_public(bytes: Seq<u8>) -> Result<Seq<char>, Seq<char>>;

/// What `std::path::Path::with_extension` makes of a path: the same with the extension in
/// place of its own.
pub uninterp spec fn path_with_extension(path: Seq<char>, extension: Seq<char>) -> Seq<char>;

/// What `std::path::Path::parent` makes of a path: the path without its last component, if
/// it has one.
pub uninterp spec fn path_parent(path: Seq<char>) -> Option<Seq<char>>;

/// `russh_keys::decode_secret_key` reads a private key from the text of its file, or fails; the
/// public bytes of the pair depend on the text alone. What `ssh_key` writes for an Ed25519 key
/// it reads as that key.
#[verifier::external_body]
fn decode_key(text: &str) -> (r: Option<russh_keys::key::KeyPair>)
    ensures
        match r {
            Some(pair) => stored_public(text@) == Some(pair_public(pair)),
            None => stored_public(text@) is None,
        },
        reads_back(text@, r),
{
    russh_keys::decode_secret_key(text, None).ok()
}

/// Whether a key was drawn, with its bytes.
pub open spec fn is_drawn(r: Option<(russh_keys::key::KeyPair, KeyMaterial)>) -> bool {
    r matches Some((pair, material)) && is_new_key(pair, material)
}

/// `russh_keys::key::KeyPair::generate_ed25519` draws a random Ed25519 key and never fails. Its
/// bytes are 32 of the private key and 32 of the public key that belongs to it, so `ssh_key`
/// takes them and writes both files; its public key in SSH wire format holds the latter. Which
/// bytes they are is chance. It panics where the system yields no randomness.
#[verifier::external_body]
fn generate_key() -> (r: Option<(russh_keys::key::KeyPair, KeyMaterial)>)
    ensures
        is_drawn(r),
{
    let pair = russh_keys::key::KeyPair::generate_ed25519()?;
    let material = match &pair {
        russh_keys::key::KeyPair::Ed25519(key) => KeyMaterial::Ed25519 {
            secret: key.to_bytes().to_vec(),
            public: key.verifying_key().to_bytes().to_vec(),
        },
        _ => KeyMaterial::Other,
    };
    Some((pair, material))
}

/// `ssh_key::private::Ed25519Keypair` is made of 64 bytes, and fails on others and where the
/// public key is not that of the private key; `ssh_key::PrivateKey::to_openssh` writes it as an
/// OpenSSH private key file. The result depends on the bytes alone.
#[verifier::external_body]
fn encode_private(bytes: &[u8]) -> (r: Result<String, String>)
    ensures
        match r {
            Ok(text) => openssh_private(bytes@) == Ok::<Seq<char>, Seq<char>>(text@),
            Err(msg) => openssh_private(bytes@) == Err::<Seq<char>, Seq<char>>(msg@),
        },
{
    ssh_key::private::Ed25519Keypair::try_from(bytes)
        .map(ssh_key::PrivateKey::from)
        .and_then(|key| key.to_openssh(ssh_key::LineEnding::LF))
        .map(|text| text.to_string())
        .map_err(|e| e.to_string())
}

/// `ssh_key::PublicKey::to_openssh` writes the public key of an `ssh_key::PrivateKey` as one
/// line. The result depends on the bytes that the key is made of alone.
#[verifier::external_body]
fn encode_public(bytes: &[u8]) -> (r: Result<String, String>)
    ensures
        match r {
            Ok(text) => openssh_public(bytes@) == Ok::<Seq<char>, Seq<char>>(text@),
            Err(msg) => openssh_public(bytes@) == Err::<Seq<char>, Seq<char>>(msg@),
        },
{
    ssh_key::private::Ed25519Keypair::try_from(bytes)
        .map(ssh_key::PrivateKey::from)
        .and_then(|key| key.public_key().to_openssh())
        .map_err(|e| e.to_string())
}

/// Whether the last component of a path holds no dot, and there is one.
pub open spec fn plain_file_name(path: Seq<char>) -> bool {
    exists|i: int|
        #![trigger path[i]]
        -1 <= i < path.len() - 1 && (i >= 0 ==> path[i] == '/') && forall|k: int|
            i < k < path.len() ==> path[k] != '/' && path[k] != '.'
}

/// `std::path::Path::with_extension` replaces the extension of a path, or adds it behind a dot
/// if the path has none; the result depends on the arguments alone. It panics on an extension
/// that holds a slash.
#[verifier::external_body]
fn with_extension(path: &str, extension: &str) -> (r: String)
    requires
        !extension@.contains('/'),
    ensures
        r@ == path_with_extension(path@, extension@),
        plain_file_name(path@) && extension@.len() > 0 ==> r@ == path@ + "."@ + extension@,
{
    std::path::Path::new(path).with_extension(extension).to_string_lossy().to_string()
}

/// `std::path::Path::parent` gives the path without its last component, if it has one; the
/// result depends on the path alone.
#[verifier::external_body]
fn parent(path: &str) -> (r: Option<String>)
    ensures
        crate::text::optional(r) == path_parent(path@),
{
    std::path::Path::new(path).parent().map(|p| p.to_string_lossy().to_string())
}

/// A step in saving a host key. The first that fails ends the saving, and `error` is then
/// reported.
#[derive(Debug)]
pub enum SaveStep {
    /// Create the directory, and those above it, unless it exists.
    EnsureDir { dir: String, error: String },
    Write { path: String, contents: String, error: String },
    SetMode { path: String, mode: u32, error: String },
    /// End the saving here.
    Abort { error: String },
}

/// What a `SaveStep` does.
pub enum SaveAct {
    EnsureDir { dir: Seq<char>, error: Seq<char> },
    Write { path: Seq<char>, contents: Seq<char>, error: Seq<char> },
    SetMode { path: Seq<char>, mode: u32, error: Seq<char> },
    Abort { error: Seq<char> },
}

impl View for SaveStep {
    type V = SaveAct;

    open spec fn view(&self) -> SaveAct {
        match self {
            SaveStep::EnsureDir { dir, error } => SaveAct::EnsureDir { dir: dir@, error: error@ },
            SaveStep::Write { path, contents, error } => SaveAct::Write {
                path: path@,
                contents: contents@,
                error: error@,
            },
            SaveStep::SetMode { path, mode, error } => SaveAct::SetMode {
                path: path@,
                mode: *mode,
                error: error@,
            },
            SaveStep::Abort { error } => SaveAct::Abort { error: error@ },
        }
    }
}

/// What the steps do, in order.
pub open spec fn save_acts(steps: Seq<SaveStep>) -> Seq<SaveAct> {
    steps.map_values(|s: SaveStep| s@)
}

/// Making the directory of the key file, if the path has one.
pub open spec fn dir_acts(path: Seq<char>) -> Seq<SaveAct> {
    match path_parent(path) {
        Some(dir) => seq![
            SaveAct::EnsureDir { dir, error: "Failed to create directory "@ + dir },
        ],
        None => Seq::empty(),
    }
}

/// Setting the permissions of a file, where files have the permissions of Unix.
pub open spec fn mode_acts(
    platform: Platform,
    path: Seq<char>,
    mode: u32,
    error: Seq<char>,
) -> Seq<SaveAct> {
    if platform.unix() {
        seq![SaveAct::SetMode { path, mode, error }]
    } else {
        Seq::empty()
    }
}

/// Writing the private key, for its owner only.
pub open spec fn private_acts(
    platform: Platform,
    path: Seq<char>,
    contents: Seq<char>,
) -> Seq<SaveAct> {
    seq![SaveAct::Write { path, contents, error: "Failed to write private key to "@ + path }]
        + mode_acts(platform, path, 0o600, "Failed to set private key permissions"@)
}

/// Writing the public key, for all to read.
pub open spec fn public_acts(
    platform: Platform,
    path: Seq<char>,
    contents: Seq<char>,
) -> Seq<SaveAct> {
    seq![SaveAct::Write { path, contents, error: "Failed to write public key to "@ + path }]
        + mode_acts(platform, path, 0o644, "Failed to set public key permissions"@)
}

/// The path of the public key file: that of the private key with the extension `pub`.
pub open spec fn public_file(path: Seq<char>) -> Seq<char> {
    if plain_file_name(path) {
        path + "."@ + "pub"@
    } else {
        path_with_extension(path, "pub"@)
    }
}

/// How a key is saved, given the texts of its two files: the directory is made, then the
/// private key is written, then the public key beside it. Where there is no text the saving
/// ends.
pub open spec fn saving(
    platform: Platform,
    path: Seq<char>,
    private: Result<Seq<char>, Seq<char>>,
    public: Result<Seq<char>, Seq<char>>,
) -> Seq<SaveAct> {
    match private {
        Err(error) => dir_acts(path) + seq![SaveAct::Abort { error }],
        Ok(text) => dir_acts(path) + private_acts(platform, path, text) + match public {
            Err(error) => seq![SaveAct::Abort { error }],
            Ok(line) => public_acts(platform, public_file(path), line),
        },
    }
}

/// What a result holds.
pub open spec fn result_text(r: Result<String, String>) -> Result<Seq<char>, Seq<char>> {
    match r {
        Ok(text) => Ok(text@),
        Err(msg) => Err(msg@),
    }
}

/// The text of a private key file for the key, or why there is none.
pub open spec fn private_text(key: KeyMaterial) -> Result<Seq<char>, Seq<char>> {
    match key {
        KeyMaterial::Ed25519 { secret, public } => openssh_private(secret@ + public@),
        KeyMaterial::Other => Err(
            "Only Ed25519 keys are currently supported for persistence"@,
        ),
    }
}

/// The text of a public key file for the key, or why there is none.
pub open spec fn public_text(key: KeyMaterial) -> Result<Seq<char>, Seq<char>> {
    match key {
        KeyMaterial::Ed25519 { secret, public } => openssh_public(secret@ + public@),
        KeyMaterial::Other => Err(
            "Only Ed25519 keys are currently supported for persistence"@,
        ),
    }
}

/// `before` and `path`.
fn message(before: &str, path: &str) -> (r: String)
    ensures
        r@ == before@ + path@,
{
    let mut msg = before.to_string();
    msg.append(path);
    msg
}

/// The steps that save a key whose two files have the given texts.
pub fn save_encoded(
    platform: Platform,
    path: &str,
    private: Result<String, String>,
    public: Result<String, String>,
) -> (r: Vec<SaveStep>)
    ensures
        save_acts(r@) == saving(platform, path@, result_text(private), result_text(public)),
{
    let ghost goal = saving(platform, path@, result_text(private), result_text(public));
    let mut steps: Vec<SaveStep> = Vec::new();
    match parent(path) {
        Some(dir) => {
            let error = message("Failed to create directory ", dir.as_str());
            steps.push(SaveStep::EnsureDir { dir, error });
        },
        None => {},
    }
    proof {
        assert(save_acts(steps@) =~= dir_acts(path@));
    }
    let text = match private {
        Ok(text) => text,
        Err(error) => {
            steps.push(SaveStep::Abort { error });
            proof {
                assert(save_acts(steps@) =~= goal);
            }
            return steps;
        },
    };
    steps.push(
        SaveStep::Write {
            path: path.to_string(),
            contents: text,
            error: message("Failed to write private key to ", path),
        },
    );
    if platform.is_unix() {
        steps.push(
            SaveStep::SetMode {
                path: path.to_string(),
                mode: 0o600,
                error: "Failed to set private key permissions".to_string(),
            },
        );
    }
    match public {
        Err(error) => steps.push(SaveStep::Abort { error }),
        Ok(line) => {
            proof {
                reveal_strlit("pub");
            }
            let pub_path = with_extension(path, "pub");
            steps.push(
                SaveStep::Write {
                    path: pub_path.clone(),
                    contents: line,
                    error: message("Failed to write public key to ", pub_path.as_str()),
                },
            );
            if platform.is_unix() {
                steps.push(
                    SaveStep::SetMode {
                        path: pub_path,
                        mode: 0o644,
                        error: "Failed to set public key permissions".to_string(),
                    },
                );
            }
        },
    }
    proof {
        assert(save_acts(steps@) =~= goal);
    }
    steps
}

/// The steps that save an SSH host key to disk in OpenSSH format: the directory is created,
/// the private key is written for its owner only (0600), and the public key is written beside
/// it. Only Ed25519 keys can be saved. Without the permissions of Unix none are set.
pub fn save_host_key(platform: Platform, key: &KeyMaterial, path: &str) -> (r: Vec<SaveStep>)
    ensures
        save_acts(r@) == saving(platform, path@, private_text(*key), public_text(*key)),
{
    match key {
        KeyMaterial::Ed25519 { secret, public } => {
            let mut combined: Vec<u8> = Vec::new();
            let mut i: usize = 0;
            while i < secret.len()
                invariant
                    i <= secret@.len(),
                    combined@ == secret@.take(i as int),
                decreases secret@.len() - i,
            {
                combined.push(secret[i]);
                proof {
                    assert(secret@.take(i as int).push(secret@[i as int]) =~= secret@.take(i + 1));
                }
                i += 1;
            }
            proof {
                assert(secret@.take(i as int) =~= secret@);
                assert(secret@ + public@.take(0) =~= secret@);
            }
            i = 0;
            while i < public.len()
                invariant
                    i <= public@.len(),
                    combined@ == secret@ + public@.take(i as int),
                decreases public@.len() - i,
            {
                combined.push(public[i]);
                proof {
                    assert((secret@ + public@.take(i as int)).push(public@[i as int]) =~= secret@
                        + public@.take(i + 1));
                }
                i += 1;
            }
            proof {
                assert(public@.take(i as int) =~= public@);
            }
            save_encoded(platform, path, encode_private(&combined), encode_public(&combined))
        },
        KeyMaterial::Other => save_encoded(
            platform,
            path,
            Err("Only Ed25519 keys are currently supported for persistence".to_string()),
            Err("Only Ed25519 keys are currently supported for persistence".to_string()),
        ),
    }
}

/// The host key to use, and the steps that save it if it is new. What comes of the steps does
/// not matter to the use of the key.
pub struct HostKeyPlan {
    pub key: HostKey,
    pub save: Option<Vec<SaveStep>>,
}

impl HostKeyPlan {
    /// Whether the plan saves a key of these bytes at the path.
    pub open spec fn saves(
        self,
        platform: Platform,
        path: Seq<char>,
        material: KeyMaterial,
    ) -> bool {
        &&& self.save matches Some(steps)
        &&& save_acts(steps@) == saving(
            platform,
            path,
            private_text(material),
            public_text(material),
        )
    }
}

/// Whether the plan uses an Ed25519 key of these bytes, and saves it at the path.
pub open spec fn uses_new_key(
    plan: HostKeyPlan,
    platform: Platform,
    path: Seq<char>,
    material: KeyMaterial,
) -> bool {
    is_new_key(plan.key.pair, material) && plan.saves(platform, path, material)
}

/// What the plan is for what stands at the path of the host key: the stored key if it can be
/// read, with nothing to save, and else a new key, to be saved. A private key file that was
/// written for a key is read as that key.
pub open spec fn is_plan_for(
    plan: HostKeyPlan,
    platform: Platform,
    path: Seq<char>,
    stored: StoredKey,
) -> bool {
    &&& plan.key.wf()
    &&& match stored_key(stored) {
        Some(public) => pair_public(plan.key.pair) == public && plan.save is None,
        None => exists|material: KeyMaterial| #[trigger]
            uses_new_key(plan, platform, path, material),
    }
    &&& forall|key: KeyMaterial|
        #[trigger] saved_as(stored, key) ==> plan.save is None && pair_public(plan.key.pair)
            == ed25519_blob(key->public@)
}

/// The path of the host key: the given one, or the default.
pub open spec fn key_file(key_path: Option<&str>) -> Seq<char> {
    match key_path {
        Some(path) => path@,
        None => DEFAULT_HOST_KEY_PATH@,
    }
}

/// The path of the host key: the given one, or the default.
pub fn host_key_path(key_path: Option<&str>) -> (r: String)
    ensures
        r@ == key_file(key_path),
{
    match key_path {
        Some(path) => path.to_string(),
        None => DEFAULT_HOST_KEY_PATH.to_string(),
    }
}

/// The key that stands at the path of the host key, if one does.
pub open spec fn stored_key(stored: StoredKey) -> Option<Seq<u8>> {
    match stored {
        StoredKey::Text(text) => stored_public(text@),
        _ => None,
    }
}

/// Whether what stands at the path of the host key is the private key file of this key.
pub open spec fn saved_as(stored: StoredKey, key: KeyMaterial) -> bool {
    &&& stored matches StoredKey::Text(text)
    &&& key matches KeyMaterial::Ed25519 { secret, .. }
    &&& secret@.len() == 32
    &&& private_text(key) == Ok::<Seq<char>, Seq<char>>(text@)
}

/// Takes the key that was loaded, if one was, or the one that was generated, with the steps
/// that save it.
pub fn choose_host_key(
    loaded: Option<HostKey>,
    generated: Option<(HostKey, KeyMaterial)>,
    platform: Platform,
    path: &str,
) -> (r: Result<HostKeyPlan, String>)
    ensures
        match (loaded, generated) {
            (Some(key), _) => r matches Ok(plan) && plan.key == key && plan.save is None,
            (None, Some((key, material))) => {
                &&& r matches Ok(plan)
                &&& plan.key == key
                &&& plan.saves(platform, path@, material)
                &&& is_new_key(key.pair, material) ==> uses_new_key(
                    plan,
                    platform,
                    path@,
                    material,
                )
            },
            (None, None) => r matches Err(msg) && msg@ == "Failed to generate Ed25519 host key"@,
        },
{
    match loaded {
        Some(key) => Ok(HostKeyPlan { key, save: None }),
        None => match generated {
            Some((key, material)) => {
                let steps = save_host_key(platform, &material, path);
                Ok(HostKeyPlan { key, save: Some(steps) })
            },
            None => Err("Failed to generate Ed25519 host key".to_string()),
        },
    }
}

/// Load an existing SSH host key, or generate a new one to be saved. A stored key that can be
/// read is used as it is. If there is none, or it cannot be read, a new Ed25519 key is drawn.
pub fn load_or_generate_host_key(
    platform: Platform,
    key_path: Option<&str>,
    stored: StoredKey,
) -> (r: Result<HostKeyPlan, String>)
    ensures
        r matches Ok(plan) && is_plan_for(plan, platform, key_file(key_path), stored),
{
    let path = host_key_path(key_path);
    proof {
        assert forall|key: KeyMaterial| #[trigger] saved_as(stored, key) implies is_private_file(
            stored->Text_0@,
            key->secret@ + key->public@,
        ) && (key->secret@ + key->public@).skip(32) == key->public@ by {
            assert((key->secret@ + key->public@).skip(32) =~= key->public@);
        }
    }
    let loaded = match stored {
        StoredKey::Text(text) => decode_key(text.as_str()),
        _ => None,
    };
    match loaded {
        Some(pair) => choose_host_key(Some(HostKey::new(pair)), None, platform, path.as_str()),
        None => {
            let generated = match generate_key() {
                Some((pair, material)) => Some((HostKey::new(pair), material)),
                None => None,
            };
            choose_host_key(None, generated, platform, path.as_str())
        },
    }
}

/// What stands at a path after the steps, if they wrote it and none failed.
pub open spec fn written(acts: Seq<SaveAct>, path: Seq<char>) -> Option<Seq<char>>
    decreases acts.len(),
{
    if acts.len() == 0 {
        None
    } else {
        match acts.last() {
            SaveAct::Write { path: p, contents, .. } => if p == path {
                Some(contents)
            } else {
                written(acts.drop_last(), path)
            },
            _ => written(acts.drop_last(), path),
        }
    }
}

/// Saving a key whose files can be written leaves its private key file at the path, unless the
/// public key file has the same path.
proof fn saving_writes_private_key(platform: Platform, path: Seq<char>, material: KeyMaterial)
    requires
        private_text(material) is Ok,
        public_text(material) is Ok,
        public_file(path) != path,
    ensures
        written(
            saving(platform, path, private_text(material), public_text(material)),
            path,
        ) == Some(private_text(material)->Ok_0),
{
    let text = private_text(material)->Ok_0;
    let private = private_acts(platform, path, text);
    let public = public_acts(platform, public_file(path), public_text(material)->Ok_0);
    let start = dir_acts(path);
    let acts = saving(platform, path, private_text(material), public_text(material));
    reveal_with_fuel(written, 3);
    assert((start + private) + public == acts);
    if platform.unix() {
        assert(acts.drop_last().drop_last() =~= start + private);
        assert(acts.drop_last().last() == public[0]);
        assert((start + private).drop_last().last() == private[0]);
    } else {
        assert(acts.drop_last() =~= start + private);
        assert(acts.last() == public[0]);
        assert((start + private).last() == private[0]);
    }
    assert(written(start + private, path) == Some(text));
}

/// The host key survives restarts: after a start that found no key it could read and whose
/// steps all succeeded, a private key file stands at the path. A start that finds that file
/// uses an Ed25519 key with the same public key, and writes nothing. It is only left out that
/// the path has the extension `pub` itself, so that the public key takes the place of the
/// private key.
pub proof fn host_key_survives_restart(
    platform: Platform,
    path: Seq<char>,
    stored: StoredKey,
    first: HostKeyPlan,
)
    requires
        is_plan_for(first, platform, path, stored),
        stored_key(stored) is None,
        public_file(path) != path,
    ensures
        first.save is Some,
        written(save_acts(first.save->0@), path) is Some,
        forall|text: String, second: HostKeyPlan|
            written(save_acts(first.save->0@), path) == Some(text@) && #[trigger] is_plan_for(
                second,
                platform,
                path,
                StoredKey::Text(text),
            ) ==> {
                &&& second.save is None
                &&& pair_public(second.key.pair) == pair_public(first.key.pair)
                &&& exists|public: Seq<u8>|
                    public.len() == 32 && pair_public(second.key.pair) == #[trigger] ed25519_blob(
                        public,
                    )
            },
{
    let material = choose|material: KeyMaterial| #[trigger]
        uses_new_key(first, platform, path, material);
    saving_writes_private_key(platform, path, material);
    assert forall|text: String, second: HostKeyPlan|
        written(save_acts(first.save->0@), path) == Some(text@) && #[trigger] is_plan_for(
            second,
            platform,
            path,
            StoredKey::Text(text),
        ) implies {
        &&& second.save is None
        &&& pair_public(second.key.pair) == pair_public(first.key.pair)
        &&& exists|public: Seq<u8>|
            public.len() == 32 && pair_public(second.key.pair) == #[trigger] ed25519_blob(public)
    } by {
        assert(saved_as(StoredKey::Text(text), material));
        assert(pair_public(second.key.pair) == ed25519_blob(material->public@));
    }
}

/// A key that could be read is used at every start that finds it.
pub proof fn stored_key_is_kept(
    platform: Platform,
    path: Seq<char>,
    stored: StoredKey,
    first: HostKeyPlan,
    second: HostKeyPlan,
)
    requires
        is_plan_for(first, platform, path, stored),
        is_plan_for(second, platform, path, stored),
        stored_key(stored) is Some,
    ensures
        first.save is None,
        second.save is None,
        pair_public(second.key.pair) == pair_public(first.key.pair),
{
}

/// The public key file of a path whose last component holds no dot is another file. The default
/// path is such a path.
pub proof fn public_key_stands_beside(path: Seq<char>)
    ensures
        plain_file_name(path) ==> public_file(path) != path,
        public_file(DEFAULT_HOST_KEY_PATH@) != DEFAULT_HOST_KEY_PATH@,
{
    reveal_strlit(".");
    reveal_strlit("pub");
    reveal_strlit("/etc/warlock/ssh/ssh_host_ed25519_key");
    let default_path = DEFAULT_HOST_KEY_PATH@;
    assert(default_path[16] == '/');
    assert(plain_file_name(default_path));
    if plain_file_name(path) {
        assert(public_file(path).len() == path.len() + 4);
    }
    assert(public_file(default_path).len() == default_path.len() + 4);
}

/// Saving a key whose two texts are known makes the directory of the path, if it has one;
/// writes the private key at the path, and on Unix lets its owner alone read it at once; then
/// writes the public key, for all to read. The private key is written nowhere else.
pub proof fn private_key_is_protected(
    platform: Platform,
    path: &str,
    private: String,
    public: String,
    r: Vec<SaveStep>,
    i: int,
)
    requires
        call_ensures(
            save_encoded,
            (platform, path, Ok::<String, String>(private), Ok::<String, String>(public)),
            r,
        ),
        0 <= i < r@.len(),
    ensures
        r@.len() >= 2,
        r@[i] matches SaveStep::Write { path: p, contents, .. } ==> {
            ||| p@ == path@ && contents@ == private@
            ||| p@ == public_file(path@) && contents@ == public@
        },
        r@[i] matches SaveStep::SetMode { path: p, mode, .. } ==> platform != Platform::NotUnix && {
            ||| p@ == path@ && mode == 0o600
            ||| p@ == public_file(path@) && mode == 0o644
        },
        !(r@[i] is Abort),
        r@[i] is EnsureDir ==> i == 0,
        exists|k: int|
            {
                &&& 0 <= k < r@.len()
                &&& #[trigger] r@[k] matches SaveStep::Write { path: p, contents, .. }
                &&& p@ == path@
                &&& contents@ == private@
                &&& platform != Platform::NotUnix ==> k + 1 < r@.len() && (
                r@[k + 1] matches SaveStep::SetMode { path: q, mode, .. } && q@ == path@ && mode
                    == 0o600)
                &&& forall|j: int| 0 <= j < k ==> r@[j] is EnsureDir
            },
{
    let done = save_acts(r@);
    assert(done.len() == r@.len());
    let n = dir_acts(path@).len() as int;
    assert forall|k: int| 0 <= k < r@.len() implies #[trigger] done[k] == r@[k]@ by {}
    assert(done[i] == r@[i]@);
    assert(done[n] == r@[n]@);
    assert(done[n] == private_acts(platform, path@, private@)[0]);
    if platform.unix() {
        assert(done[n + 1] == r@[n + 1]@);
        assert(done[n + 1] == private_acts(platform, path@, private@)[1]);
        assert(done.len() == n + 4);
        assert(done[n + 2] == public_acts(platform, public_file(path@), public@)[0]);
        assert(done[n + 3] == public_acts(platform, public_file(path@), public@)[1]);
    } else {
        assert(done.len() == n + 2);
        assert(done[n + 1] == public_acts(platform, public_file(path@), public@)[0]);
    }
    assert(r@[n] matches SaveStep::Write { path: p, contents, .. } && p@ == path@ && contents@
        == private@);
    assert forall|j: int| 0 <= j < n implies r@[j] is EnsureDir by {
        assert(done[j] == r@[j]@);
        assert(done[j] == dir_acts(path@)[j]);
    }
}

/// Where the private key cannot be written out nothing is written, and the saving ends with the
/// reason; where the public key cannot, the private key alone is.
pub proof fn saving_ends_where_a_text_is_missing(
    platform: Platform,
    path: &str,
    private: String,
    error: String,
    public: Result<String, String>,
    r: Vec<SaveStep>,
    s: Vec<SaveStep>,
)
    requires
        call_ensures(
            save_encoded,
            (platform, path, Err::<String, String>(error), public),
            r,
        ),
        call_ensures(
            save_encoded,
            (platform, path, Ok::<String, String>(private), Err::<String, String>(error)),
            s,
        ),
    ensures
        r@.len() > 0 && s@.len() > 0,
        r@[r@.len() - 1] matches SaveStep::Abort { error: e } && e@ == error@,
        s@[s@.len() - 1] matches SaveStep::Abort { error: e } && e@ == error@,
        forall|i: int| 0 <= i < r@.len() ==> !(#[trigger] r@[i] is Write),
        forall|i: int|
            0 <= i < s@.len() ==> (#[trigger] s@[i] matches SaveStep::Write { path: p, contents, .. }
                ==> p@ == path@ && contents@ == private@),
{
    let a = save_acts(r@);
    let b = save_acts(s@);
    assert(a.len() == r@.len() && b.len() == s@.len());
    let n = dir_acts(path@).len() as int;
    assert(a.len() == n + 1);
    assert(a[n] == r@[n]@);
    assert(b[b.len() - 1] == s@[s@.len() - 1]@);
    assert forall|i: int| 0 <= i < r@.len() implies !(#[trigger] r@[i] is Write) by {
        assert(a[i] == r@[i]@);
        if i < n {
            assert(a[i] == dir_acts(path@)[i]);
        }
    }
    assert forall|i: int| 0 <= i < s@.len() implies (#[trigger] s@[i] matches SaveStep::Write {
        path: p,
        contents,
        ..
    } ==> p@ == path@ && contents@ == private@) by {
        assert(b[i] == s@[i]@);
        if i < n {
            assert(b[i] == dir_acts(path@)[i]);
        } else if i < n + private_acts(platform, path@, private@).len() {
            assert(b[i] == private_acts(platform, path@, private@)[i - n]);
        }
    }
}

/// The host key stands at the path that is given, or else at the default.
pub proof fn given_path_counts(path: &str, r: String, s: String)
    requires
        call_ensures(host_key_path, (Some(path),), r),
        call_ensures(host_key_path, (None::<&str>,), s),
    ensures
        r@ == path@,
        s@ == "/etc/warlock/ssh/ssh_host_ed25519_key"@,
{
}

/// A key that was loaded is used and not saved; else one that was drawn is used and saved; else
/// there is none.
pub proof fn loaded_key_counts(
    key: HostKey,
    drawn: Option<(HostKey, KeyMaterial)>,
    new_key: HostKey,
    material: KeyMaterial,
    platform: Platform,
    path: &str,
    a: Result<HostKeyPlan, String>,
    b: Result<HostKeyPlan, String>,
    c: Result<HostKeyPlan, String>,
)
    requires
        call_ensures(choose_host_key, (Some(key), drawn, platform, path), a),
        call_ensures(
            choose_host_key,
            (None::<HostKey>, Some((new_key, material)), platform, path),
            b,
        ),
        call_ensures(
            choose_host_key,
            (None::<HostKey>, None::<(HostKey, KeyMaterial)>, platform, path),
            c,
        ),
    ensures
        a matches Ok(plan) && plan.key == key && plan.save is None,
        b matches Ok(plan) && plan.key == new_key && plan.save is Some && forall|steps: Vec<
            SaveStep,
        >|
            #[trigger] call_ensures(save_host_key, (platform, &material, path), steps)
                ==> save_acts(plan.save->0@) == save_acts(steps@),
        c matches Err(msg) && msg@ == "Failed to generate Ed25519 host key"@,
{
}

/// A key of another kind than Ed25519 is never written.
pub proof fn other_keys_are_not_saved(platform: Platform, path: &str, r: Vec<SaveStep>)
    requires
        call_ensures(save_host_key, (platform, &KeyMaterial::Other, path), r),
    ensures
        forall|i: int| 0 <= i < r@.len() ==> !(#[trigger] r@[i] is Write),
        r@.len() > 0 && r@[r@.len() - 1] is Abort,
{
    let done = save_acts(r@);
    let n = dir_acts(path@).len() as int;
    assert(done.len() == r@.len());
    assert(done.len() == n + 1);
    assert(done[n] == r@[n]@);
    assert forall|i: int| 0 <= i < r@.len() implies !(#[trigger] r@[i] is Write) by {
        assert(done[i] == r@[i]@);
        if i < n {
            assert(done[i] == dir_acts(path@)[i]);
        }
    }
}

/// A start that finds a key that can be read uses that key and writes nothing; any other start
/// uses a new Ed25519 key and saves it. Both ways there is a key.
pub proof fn every_start_has_a_key(
    platform: Platform,
    key_path: Option<&str>,
    stored: StoredKey,
    r: Result<HostKeyPlan, String>,
)
    requires
        call_ensures(load_or_generate_host_key, (platform, key_path, stored), r),
    ensures
        r matches Ok(plan) && plan.key.public@ == pair_public(plan.key.pair),
        r->Ok_0.save is None <==> (stored matches StoredKey::Text(text) && stored_public(text@)
            is Some),
        stored matches StoredKey::Text(text) ==> (stored_public(text@) matches Some(public)
            ==> pair_public(r->Ok_0.key.pair) == public),
        r->Ok_0.save is Some ==> exists|public: Seq<u8>|
            public.len() == 32 && pair_public(r->Ok_0.key.pair) == #[trigger] ed25519_blob(public),
{
    let plan = r->Ok_0;
    if stored_key(stored) is None {
        let path = key_file(key_path);
        let material = choose|material: KeyMaterial| #[trigger]
            uses_new_key(plan, platform, path, material);
        assert(pair_public(plan.key.pair) == ed25519_blob(material->public@));
    }
}

/// The public key of an Ed25519 pair is written as 51 bytes: the name of the algorithm behind
/// its length, and the 32 bytes of the key behind theirs.
pub proof fn ed25519_blob_layout(public: Seq<u8>)
    requires
        public.len() == 32,
    ensures
        ed25519_blob(public).len() == 51,
        ed25519_blob(public).subrange(0, 4) == seq![0u8, 0, 0, 11],
        ed25519_blob(public).subrange(4, 15) == seq![
            115u8,
            115,
            104,
            45,
            101,
            100,
            50,
            53,
            53,
            49,
            57,
        ],
        ed25519_blob(public).subrange(15, 19) == seq![0u8, 0, 0, 32],
        ed25519_blob(public).skip(19) == public,
{
    assert(ed25519_blob(public).subrange(0, 4) =~= seq![0u8, 0, 0, 11]);
    assert(ed25519_blob(public).subrange(15, 19) =~= seq![0u8, 0, 0, 32]);
    assert(ed25519_blob(public).skip(19) =~= public);
}

/// What a step does is what it names.
pub proof fn save_steps_do_what_they_name(steps: Seq<SaveStep>, i: int)
    requires
        0 <= i < steps.len(),
    ensures
        save_acts(steps).len() == steps.len(),
        save_acts(steps)[i] == match steps[i] {
            SaveStep::EnsureDir { dir, error } => SaveAct::EnsureDir { dir: dir@, error: error@ },
            SaveStep::Write { path, contents, error } => SaveAct::Write {
                path: path@,
                contents: contents@,
                error: error@,
            },
            SaveStep::SetMode { path, mode, error } => SaveAct::SetMode {
                path: path@,
                mode,
                error: error@,
            },
            SaveStep::Abort { error } => SaveAct::Abort { error: error@ },
        },
{
}

/// An Ed25519 key is saved with the texts that its private and its public bytes, one behind the
/// other, are written as.
pub proof fn key_bytes_are_written(
    platform: Platform,
    secret: Vec<u8>,
    public: Vec<u8>,
    path: &str,
    r: Vec<SaveStep>,
    private: String,
    line: String,
    s: Vec<SaveStep>,
)
    requires
        call_ensures(
            save_host_key,
            (platform, &(KeyMaterial::Ed25519 { secret, public }), path),
            r,
        ),
        call_ensures(
            save_encoded,
            (platform, path, Ok::<String, String>(private), Ok::<String, String>(line)),
            s,
        ),
    ensures
        openssh_private(secret@ + public@) == Ok::<Seq<char>, Seq<char>>(private@)
            && openssh_public(secret@ + public@) == Ok::<Seq<char>, Seq<char>>(line@) ==> save_acts(
            r@,
        ) == save_acts(s@),
{
}

/// The directory of the path is made if it has one, and what fails is reported with its path.
pub proof fn saving_reports_paths(
    platform: Platform,
    path: &str,
    private: String,
    public: String,
    r: Vec<SaveStep>,
    i: int,
)
    requires
        call_ensures(
            save_encoded,
            (platform, path, Ok::<String, String>(private), Ok::<String, String>(public)),
            r,
        ),
        0 <= i < r@.len(),
    ensures
        path_parent(path@) matches Some(dir) ==> (r@[0] matches SaveStep::EnsureDir { dir: d, error }
            && d@ == dir && error@ == "Failed to create directory "@ + dir),
        path_parent(path@) is None ==> !(r@[i] is EnsureDir),
        r@[i] matches SaveStep::Write { path: p, error, .. } ==> error@
            == "Failed to write private key to "@ + p@ || error@ == "Failed to write public key to "@
            + p@,
{
    let done = save_acts(r@);
    assert(done.len() == r@.len());
    let n = dir_acts(path@).len() as int;
    assert(done[0] == r@[0]@);
    assert(done[i] == r@[i]@);
    if i < n {
        assert(done[i] == dir_acts(path@)[i]);
    } else if i < n + private_acts(platform, path@, private@).len() {
        assert(done[i] == private_acts(platform, path@, private@)[i - n]);
    } else {
        assert(done[i] == public_acts(platform, public_file(path@), public@)[i - n
            - private_acts(platform, path@, private@).len()]);
    }
    if n > 0 {
        assert(done[0] == dir_acts(path@)[0]);
    }
}

/// A host key is of its pair.
pub proof fn host_keys_are_of_their_pair(pair: russh_keys::key::KeyPair, r: HostKey)
    requires
        call_ensures(HostKey::new, (pair,), r),
    ensures
        r.pair == pair,
        r.public@ == pair_public(pair),
        r.wf() <==> r.public@ == pair_public(r.pair),
{
}

/// Saving a key takes these steps and no others: the directory of the path, if it has one; the
/// private key at the path, for its owner only where files have owners; the public key beside
/// it, for all to read.
pub proof fn saving_takes_these_steps(
    platform: Platform,
    path: &str,
    private: String,
    public: String,
    r: Vec<SaveStep>,
    beside: Seq<char>,
)
    requires
        call_ensures(
            save_encoded,
            (platform, path, Ok::<String, String>(private), Ok::<String, String>(public)),
            r,
        ),
        beside == public_file(path@),
    ensures
        ({
            let n = if path_parent(path@) is Some {
                1int
            } else {
                0
            };
            let m = if platform == Platform::NotUnix {
                n + 1
            } else {
                n + 2
            };
            &&& r@.len() == if platform == Platform::NotUnix {
                n + 2
            } else {
                n + 4
            }
            &&& n == 1 ==> (r@[0] matches SaveStep::EnsureDir { dir, .. } && dir@ == path_parent(
                path@,
            )->0)
            &&& r@[n] matches SaveStep::Write { path: p, contents, error } && p@ == path@
                && contents@ == private@ && error@ == "Failed to write private key to "@ + path@
            &&& platform != Platform::NotUnix ==> (r@[n + 1] matches SaveStep::SetMode {
                path: p,
                mode,
                error,
            } && p@ == path@ && mode == 0o600 && error@ == "Failed to set private key permissions"@)
            &&& r@[m] matches SaveStep::Write { path: p, contents, error } && p@ == beside
                && contents@ == public@ && error@ == "Failed to write public key to "@ + beside
            &&& platform != Platform::NotUnix ==> (r@[m + 1] matches SaveStep::SetMode {
                path: p,
                mode,
                error,
            } && p@ == beside && mode == 0o644 && error@ == "Failed to set public key permissions"@)
        }),
{
    let done = save_acts(r@);
    assert(done.len() == r@.len());
    let n = dir_acts(path@).len() as int;
    let first = private_acts(platform, path@, private@);
    let second = public_acts(platform, beside, public@);
    assert forall|k: int| 0 <= k < r@.len() implies #[trigger] done[k] == r@[k]@ by {}
    if n > 0 {
        assert(done[0] == r@[0]@);
        assert(done[0] == dir_acts(path@)[0]);
    }
    assert(done[n] == r@[n]@);
    assert(done[n] == first[0]);
    if platform.unix() {
        assert(done[n + 1] == r@[n + 1]@);
        assert(done[n + 1] == first[1]);
        assert(done[n + 2] == r@[n + 2]@);
        assert(done[n + 2] == second[0]);
        assert(done[n + 3] == r@[n + 3]@);
        assert(done[n + 3] == second[1]);
    } else {
        assert(done[n + 1] == r@[n + 1]@);
        assert(done[n + 1] == second[0]);
    }
}

/// The public key file of a path whose last component holds no dot is that path and `.pub`.
pub proof fn public_key_file_is_named(dir: Seq<char>, name: Seq<char>)
    requires
        name.len() > 0,
        !name.contains('/'),
        !name.contains('.'),
    ensures
        public_file(name) == name + seq!['.', 'p', 'u', 'b'],
        public_file(dir + seq!['/'] + name) == dir + seq!['/'] + name + seq!['.', 'p', 'u', 'b'],
{
    reveal_strlit(".");
    reveal_strlit("pub");
    let ending = seq!['.', 'p', 'u', 'b'];
    assert("."@ + "pub"@ =~= ending);
    let path = dir + seq!['/'] + name;
    assert(name + "."@ + "pub"@ =~= name + ending);
    assert(path + "."@ + "pub"@ =~= path + ending);
    assert forall|i: int| 0 <= i < name.len() implies name[i] != '/' && name[i] != '.' by {
        assert(name.contains(name[i]));
    }
    assert(plain_file_name(name)) by {
        let before = name[-1];
    }
    assert(plain_file_name(path)) by {
        let n = dir.len() as int;
        assert(path[n] == '/');
        assert forall|k: int| n < k < path.len() implies path[k] != '/' && path[k] != '.' by {
            assert(path[k] == name[k - n - 1]);
        }
    }
}

/// Where the private key cannot be written out, the directory alone is made; where the public
/// key cannot, the private key is written, for its owner only, before the saving ends.
pub proof fn ended_saving_takes_these_steps(
    platform: Platform,
    path: &str,
    private: String,
    error: String,
    public: Result<String, String>,
    r: Vec<SaveStep>,
    s: Vec<SaveStep>,
)
    requires
        call_ensures(
            save_encoded,
            (platform, path, Err::<String, String>(error), public),
            r,
        ),
        call_ensures(
            save_encoded,
            (platform, path, Ok::<String, String>(private), Err::<String, String>(error)),
            s,
        ),
    ensures
        ({
            let n = if path_parent(path@) is Some {
                1int
            } else {
                0
            };
            &&& r@.len() == n + 1
            &&& s@.len() == if platform == Platform::NotUnix {
                n + 2
            } else {
                n + 3
            }
            &&& n == 1 ==> r@[0] is EnsureDir && s@[0] is EnsureDir
            &&& s@[n] matches SaveStep::Write { path: p, contents, .. } && p@ == path@ && contents@
                == private@
            &&& platform != Platform::NotUnix ==> (s@[n + 1] matches SaveStep::SetMode {
                path: p,
                mode,
                ..
            } && p@ == path@ && mode == 0o600)
        }),
{
    let a = save_acts(r@);
    let b = save_acts(s@);
    assert(a.len() == r@.len() && b.len() == s@.len());
    let n = dir_acts(path@).len() as int;
    let first = private_acts(platform, path@, private@);
    assert forall|k: int| 0 <= k < r@.len() implies #[trigger] a[k] == r@[k]@ by {}
    assert forall|k: int| 0 <= k < s@.len() implies #[trigger] b[k] == s@[k]@ by {}
    if n > 0 {
        assert(a[0] == r@[0]@ && a[0] == dir_acts(path@)[0]);
        assert(b[0] == s@[0]@ && b[0] == dir_acts(path@)[0]);
    }
    assert(b[n] == s@[n]@ && b[n] == first[0]);
    if platform.unix() {
        assert(b[n + 1] == s@[n + 1]@ && b[n + 1] == first[1]);
    }
}

/// A key of another kind than Ed25519 is refused in these words.
pub proof fn other_keys_are_refused(platform: Platform, path: &str, r: Vec<SaveStep>)
    requires
        call_ensures(save_host_key, (platform, &KeyMaterial::Other, path), r),
    ensures
        r@[r@.len() - 1] matches SaveStep::Abort { error } && error@
            == "Only Ed25519 keys are currently supported for persistence"@,
{
    let done = save_acts(r@);
    let n = dir_acts(path@).len() as int;
    assert(done.len() == r@.len());
    assert(done.len() == n + 1);
    assert(done[n] == r@[n]@);
}

/// A new key is saved at the path that was asked for, and a start that finds what was written
/// there uses the same key and writes nothing. It is only left out that the public key file has
/// that very path.
pub proof fn new_key_is_found_again(
    platform: Platform,
    key_path: Option<&str>,
    path: String,
    stored: StoredKey,
    first: Result<HostKeyPlan, String>,
    text: String,
    second: Result<HostKeyPlan, String>,
)
    requires
        call_ensures(host_key_path, (key_path,), path),
        call_ensures(load_or_generate_host_key, (platform, key_path, stored), first),
        first matches Ok(plan) && plan.save is Some,
        public_file(path@) != path@,
        call_ensures(
            load_or_generate_host_key,
            (platform, key_path, StoredKey::Text(text)),
            second,
        ),
    ensures
        exists|k: int|
            {
                &&& 0 <= k < first->Ok_0.save->0@.len()
                &&& #[trigger] first->Ok_0.save->0@[k] matches SaveStep::Write { path: p, .. }
                &&& p@ == path@
            },
        written(save_acts(first->Ok_0.save->0@), path@) == Some(text@) ==> {
            &&& second matches Ok(plan) && plan.save is None
            &&& second->Ok_0.key.public@ == first->Ok_0.key.public@
        },
{
    let plan = first->Ok_0;
    host_key_survives_restart(platform, path@, stored, plan);
    let acts = save_acts(plan.save->0@);
    assert(acts.len() == plan.save->0@.len());
    written_by_a_step(acts, path@);
    let k = choose|k: int|
        {
            &&& 0 <= k < acts.len()
            &&& #[trigger] acts[k] matches SaveAct::Write { path: p, .. }
            &&& p == path@
        };
    assert(acts[k] == plan.save->0@[k]@);
}

/// What stands at a path was written there by a step, and no later step wrote there.
pub proof fn written_by_a_step(acts: Seq<SaveAct>, path: Seq<char>)
    ensures
        match written(acts, path) {
            Some(text) => exists|k: int|
                {
                    &&& 0 <= k < acts.len()
                    &&& #[trigger] acts[k] matches SaveAct::Write { path: p, contents, .. }
                    &&& p == path
                    &&& contents == text
                    &&& forall|j: int|
                        k < j < acts.len() ==> !(#[trigger] acts[j] matches SaveAct::Write {
                            path: q,
                            ..
                        } && q == path)
                },
            None => forall|j: int|
                0 <= j < acts.len() ==> !(#[trigger] acts[j] matches SaveAct::Write { path: q, .. }
                    && q == path),
        },
    decreases acts.len(),
{
    if acts.len() > 0 {
        let front = acts.drop_last();
        let n = acts.len() - 1;
        written_by_a_step(front, path);
        assert(acts[n] == acts.last());
        assert forall|j: int| 0 <= j < n implies #[trigger] acts[j] == front[j] by {}
        if acts.last() matches SaveAct::Write { path: p, .. } && p == path {
            assert(acts[n] is Write);
        } else if written(front, path) is Some {
            let k = choose|k: int|
                {
                    &&& 0 <= k < front.len()
                    &&& #[trigger] front[k] matches SaveAct::Write { path: p, contents, .. }
                    &&& p == path
                    &&& contents == written(front, path)->0
                    &&& forall|j: int|
                        k < j < front.len() ==> !(#[trigger] front[j] matches SaveAct::Write {
                            path: q,
                            ..
                        } && q == path)
                };
            assert(acts[k] == front[k]);
        }
    }
}

} // verus!
