//! Key pairs and the key manager: a map from key identifier to key pair,
//! filled by loading and by generation.

use crate::config::{KeyGenerationConfig, KeyLoadingConfig, KeyType};
use crate::crypto::primitives::{
    ecdsa_generate_pkcs8, ecdsa_public_from_pkcs8, ecdsa_public_key, rsa_generate_pkcs8,
    rsa_public_from_pkcs8, rsa_public_key, system_random, Curve,
};
use crate::error::{CryptoError, Error};
use crate::text::{copy_bytes, join2, same_text};
use vstd::prelude::*;

verus! {

/// A private and a public key with their identifier and declared type. The
/// private key is a PKCS#8 document. The bytes are opaque here.
#[derive(Debug)]
pub struct KeyPair {
    pub key_id: String,
    pub key_type: KeyType,
    pub private_key: Vec<u8>,
    pub public_key: Vec<u8>,
}

/// A key pair as a value: its identifier as text and its keys as bytes.
pub struct KeyPairView {
    pub key_id: Seq<char>,
    pub key_type: KeyType,
    pub private_key: Seq<u8>,
    pub public_key: Seq<u8>,
}

impl View for KeyPair {
    type V = KeyPairView;

    open spec fn view(&self) -> KeyPairView {
        KeyPairView {
            key_id: self.key_id@,
            key_type: self.key_type,
            private_key: self.private_key@,
            public_key: self.public_key@,
        }
    }
}

impl Clone for KeyPair {
    fn clone(&self) -> (out: Self)
        ensures
            out@ == self@,
    {
        KeyPair {
            key_id: self.key_id.clone(),
            key_type: self.key_type,
            private_key: copy_bytes(self.private_key.as_slice()),
            public_key: copy_bytes(self.public_key.as_slice()),
        }
    }
}

/// The curve of an elliptic-curve key type that can sign, and nothing for
/// every other key type.
pub open spec fn curve_of(key_type: KeyType) -> Option<Curve> {
    match key_type {
        KeyType::EccP256 => Some(Curve::P256),
        KeyType::EccP384 => Some(Curve::P384),
        _ => None,
    }
}

/// The curve of `key_type`, if it has one that can sign.
pub fn curve_for(key_type: KeyType) -> (curve: Option<Curve>)
    ensures
        curve == curve_of(key_type),
{
    match key_type {
        KeyType::EccP256 => Some(Curve::P256),
        KeyType::EccP384 => Some(Curve::P384),
        _ => None,
    }
}

impl KeyPair {
    pub fn new(key_id: String, key_type: KeyType, private_key: Vec<u8>, public_key: Vec<u8>) -> (out:
        Self)
        ensures
            out.key_id == key_id,
            out.key_type == key_type,
            out.private_key == private_key,
            out.public_key == public_key,
    {
        KeyPair { key_id, key_type, private_key, public_key }
    }

    /// The size of the key in bits.
    pub fn key_size_bits(&self) -> (bits: u32)
        ensures
            bits == self.key_type.bits(),
    {
        match self.key_type {
            KeyType::Rsa2048 => 2048,
            KeyType::Rsa3072 => 3072,
            KeyType::Rsa4096 => 4096,
            KeyType::EccP256 => 256,
            KeyType::EccP384 => 384,
            KeyType::EccP521 => 521,
        }
    }

    pub fn is_rsa(&self) -> (yes: bool)
        ensures
            yes == self.key_type.is_rsa(),
    {
        match self.key_type {
            KeyType::Rsa2048 | KeyType::Rsa3072 | KeyType::Rsa4096 => true,
            _ => false,
        }
    }

    pub fn is_ecc(&self) -> (yes: bool)
        ensures
            yes == self.key_type.is_ecc(),
            yes == !self.key_type.is_rsa(),
    {
        match self.key_type {
            KeyType::EccP256 | KeyType::EccP384 | KeyType::EccP521 => true,
            _ => false,
        }
    }
}

/// The index of the last entry with identifier `id`, if there is one.
pub open spec fn position(entries: Seq<KeyPair>, id: Seq<char>) -> Option<int>
    decreases entries.len(),
{
    if entries.len() == 0 {
        None
    } else if entries.last().key_id@ == id {
        Some(entries.len() - 1)
    } else {
        position(entries.drop_last(), id)
    }
}

/// The map that a sequence of entries stands for: each identifier leads to
/// the last entry that carries it.
pub open spec fn key_map(entries: Seq<KeyPair>) -> Map<Seq<char>, KeyPairView>
    decreases entries.len(),
{
    if entries.len() == 0 {
        Map::empty()
    } else {
        key_map(entries.drop_last()).insert(entries.last().key_id@, entries.last()@)
    }
}

/// Whether no two entries carry the same identifier.
pub open spec fn ids_distinct(entries: Seq<KeyPair>) -> bool {
    forall|i: int, j: int|
        0 <= i < j < entries.len() ==> (#[trigger] entries[i]).key_id@ != (
        #[trigger] entries[j]).key_id@
}

/// Whether the key at index `i` of `ids` is the first of type `key_type`.
pub open spec fn first_of_type(
    ids: Seq<Seq<char>>,
    keys: Map<Seq<char>, KeyPairView>,
    key_type: KeyType,
    i: int,
) -> bool {
    &&& 0 <= i < ids.len()
    &&& keys[ids[i]].key_type == key_type
    &&& forall|j: int| 0 <= j < i ==> keys[#[trigger] ids[j]].key_type != key_type
}

/// The identifiers of the entries, in their order.
pub open spec fn ids_of(entries: Seq<KeyPair>) -> Seq<Seq<char>> {
    Seq::new(entries.len(), |i: int| entries[i].key_id@)
}

proof fn lemma_position(entries: Seq<KeyPair>, id: Seq<char>)
    ensures
        key_map(entries).contains_key(id) <==> position(entries, id) is Some,
        position(entries, id) matches Some(i) ==> 0 <= i < entries.len() && entries[i].key_id@ == id
            && key_map(entries)[id] == entries[i]@,
        position(entries, id) is None ==> forall|i: int|
            0 <= i < entries.len() ==> (#[trigger] entries[i]).key_id@ != id,
    decreases entries.len(),
{
    if entries.len() > 0 {
        let head = entries.drop_last();
        lemma_position(head, id);
        if entries.last().key_id@ != id {
            if position(head, id) is None {
                assert forall|i: int| 0 <= i < entries.len() implies (
                #[trigger] entries[i]).key_id@ != id by {
                    if i < head.len() {
                        assert(head[i] == entries[i]);
                    }
                }
            }
        }
    }
}

proof fn lemma_position_distinct(entries: Seq<KeyPair>, i: int)
    requires
        ids_distinct(entries),
        0 <= i < entries.len(),
    ensures
        position(entries, entries[i].key_id@) == Some(i),
    decreases entries.len(),
{
    let id = entries[i].key_id@;
    if i == entries.len() - 1 {
    } else {
        let head = entries.drop_last();
        assert(entries[i].key_id@ != entries[entries.len() - 1].key_id@);
        assert forall|a: int, b: int| 0 <= a < b < head.len() implies (#[trigger] head[a]).key_id@
            != (#[trigger] head[b]).key_id@ by {
            assert(head[a] == entries[a]);
            assert(head[b] == entries[b]);
        }
        assert(head[i] == entries[i]);
        lemma_position_distinct(head, i);
    }
}

proof fn lemma_replace(entries: Seq<KeyPair>, i: int, pair: KeyPair)
    requires
        ids_distinct(entries),
        0 <= i < entries.len(),
        entries[i].key_id@ == pair.key_id@,
    ensures
        ids_distinct(entries.update(i, pair)),
        key_map(entries.update(i, pair)) == key_map(entries).insert(pair.key_id@, pair@),
        ids_of(entries.update(i, pair)) == ids_of(entries),
{
    let after = entries.update(i, pair);
    assert forall|a: int, b: int| 0 <= a < b < after.len() implies (#[trigger] after[a]).key_id@
        != (#[trigger] after[b]).key_id@ by {
        assert(after[a].key_id@ == entries[a].key_id@);
        assert(after[b].key_id@ == entries[b].key_id@);
    }
    assert(ids_of(after) =~= ids_of(entries));
    let want = key_map(entries).insert(pair.key_id@, pair@);
    assert forall|id: Seq<char>| key_map(after).contains_key(id) <==> want.contains_key(id) by {
        lemma_position(after, id);
        lemma_position(entries, id);
        if position(after, id) is Some {
            let k = position(after, id)->0;
            assert(entries[k].key_id@ == after[k].key_id@);
        }
        if position(entries, id) is Some {
            let k = position(entries, id)->0;
            assert(after[k].key_id@ == entries[k].key_id@);
        }
        if id == pair.key_id@ {
            assert(after[i].key_id@ == id);
        }
    }
    assert forall|id: Seq<char>| key_map(after).contains_key(id) implies key_map(after)[id]
        == want[id] by {
        lemma_position(after, id);
        lemma_position(entries, id);
        let k = position(after, id)->0;
        lemma_position_distinct(after, k);
        if k == i {
        } else {
            assert(after[k] == entries[k]);
            lemma_position_distinct(entries, k);
        }
    }
    assert(key_map(after) =~= want);
}

proof fn lemma_append(entries: Seq<KeyPair>, pair: KeyPair)
    requires
        ids_distinct(entries),
        forall|i: int| 0 <= i < entries.len() ==> (#[trigger] entries[i]).key_id@ != pair.key_id@,
    ensures
        ids_distinct(entries.push(pair)),
        key_map(entries.push(pair)) == key_map(entries).insert(pair.key_id@, pair@),
        ids_of(entries.push(pair)) == ids_of(entries).push(pair.key_id@),
{
    let after = entries.push(pair);
    assert(after.drop_last() =~= entries);
    assert(ids_of(after) =~= ids_of(entries).push(pair.key_id@));
    assert forall|a: int, b: int| 0 <= a < b < after.len() implies (#[trigger] after[a]).key_id@
        != (#[trigger] after[b]).key_id@ by {
        assert(after[a] == entries[a]);
        if b < entries.len() {
            assert(after[b] == entries[b]);
        }
    }
}

proof fn lemma_remove(entries: Seq<KeyPair>, i: int)
    requires
        ids_distinct(entries),
        0 <= i < entries.len(),
    ensures
        ids_distinct(entries.remove(i)),
        key_map(entries.remove(i)) == key_map(entries).remove(entries[i].key_id@),
{
    let after = entries.remove(i);
    let gone = entries[i].key_id@;
    assert forall|a: int, b: int| 0 <= a < b < after.len() implies (#[trigger] after[a]).key_id@
        != (#[trigger] after[b]).key_id@ by {
        let a0 = if a < i {
            a
        } else {
            a + 1
        };
        let b0 = if b < i {
            b
        } else {
            b + 1
        };
        assert(after[a] == entries[a0]);
        assert(after[b] == entries[b0]);
    }
    let want = key_map(entries).remove(gone);
    assert forall|id: Seq<char>| key_map(after).contains_key(id) <==> want.contains_key(id) by {
        lemma_position(after, id);
        lemma_position(entries, id);
        if position(after, id) is Some {
            let k = position(after, id)->0;
            let k0 = if k < i {
                k
            } else {
                k + 1
            };
            assert(after[k] == entries[k0]);
            assert(entries[k0].key_id@ != gone);
        }
        if position(entries, id) is Some {
            let k = position(entries, id)->0;
            if id != gone {
                let k1 = if k < i {
                    k
                } else {
                    k - 1
                };
                assert(after[k1] == entries[k]);
            }
        }
    }
    assert forall|id: Seq<char>| key_map(after).contains_key(id) implies key_map(after)[id]
        == want[id] by {
        lemma_position(after, id);
        lemma_position(entries, id);
        let k = position(after, id)->0;
        let k0 = if k < i {
            k
        } else {
            k + 1
        };
        assert(after[k] == entries[k0]);
        lemma_position_distinct(entries, k0);
    }
    assert(key_map(after) =~= want);
}

/// Where no two entries share an identifier, the identifiers are those of
/// the map, each once.
proof fn lemma_ids_of(entries: Seq<KeyPair>)
    requires
        ids_distinct(entries),
    ensures
        ids_of(entries).no_duplicates(),
        forall|id: Seq<char>| ids_of(entries).contains(id) <==> key_map(entries).contains_key(id),
{
    let ids = ids_of(entries);
    assert forall|i: int, j: int| 0 <= i < ids.len() && 0 <= j < ids.len() && i != j implies ids[i]
        != ids[j] by {
        if i < j {
            assert(entries[i].key_id@ != entries[j].key_id@);
        } else {
            assert(entries[j].key_id@ != entries[i].key_id@);
        }
    }
    assert forall|id: Seq<char>| ids.contains(id) <==> key_map(entries).contains_key(id) by {
        lemma_position(entries, id);
        if ids.contains(id) {
            let k = choose|k: int| 0 <= k < ids.len() && ids[k] == id;
            assert(entries[k].key_id@ == id);
        }
        if position(entries, id) is Some {
            let k = position(entries, id)->0;
            assert(ids[k] == id);
        }
    }
}

/// The contents of one key file: what was read for the private key and,
/// where a public key file was named, for the public key.
#[derive(Debug)]
pub struct KeyMaterial {
    pub key_id: String,
    pub key_type: KeyType,
    pub private_key: Vec<u8>,
    pub public_key: Option<Vec<u8>>,
}

/// The identifier under which a generated key of `key_type` is kept.
pub open spec fn generated_id(key_type: KeyType) -> Seq<char> {
    match key_type {
        KeyType::Rsa2048 => "rsa_2048"@,
        KeyType::Rsa3072 => "rsa_3072"@,
        KeyType::Rsa4096 => "rsa_4096"@,
        KeyType::EccP256 => "ecc_EccP256"@,
        KeyType::EccP384 => "ecc_EccP384"@,
        KeyType::EccP521 => "ecc_EccP521"@,
    }
}

/// Whether the public key of `pair` is the one that its private key holds,
/// by the rules of its key type.
pub open spec fn keys_match(pair: KeyPairView) -> bool {
    match curve_of(pair.key_type) {
        Some(curve) => ecdsa_public_key(curve, pair.private_key) == Some(pair.public_key),
        None => pair.key_type.is_rsa() && rsa_public_key(pair.private_key) == Some(
            pair.public_key,
        ),
    }
}

/// What loading one key file gives, where it gives a key pair: the public
/// key that was read, or else the public key that the private key holds for
/// the curve of the declared type.
pub open spec fn loaded_pair(
    key_id: Seq<char>,
    key_type: KeyType,
    private_key: Seq<u8>,
    public_key: Option<Seq<u8>>,
) -> Option<KeyPairView> {
    match public_key {
        Some(public_key) => Some(KeyPairView { key_id, key_type, private_key, public_key }),
        None => match curve_of(key_type) {
            None => None,
            Some(curve) => match ecdsa_public_key(curve, private_key) {
                None => None,
                Some(public_key) => Some(
                    KeyPairView { key_id, key_type, private_key, public_key },
                ),
            },
        },
    }
}

/// What loading one key file gives.
pub open spec fn loaded_from(file: KeyMaterial) -> Option<KeyPairView> {
    loaded_pair(
        file.key_id@,
        file.key_type,
        file.private_key@,
        match file.public_key {
            Some(bytes) => Some(bytes@),
            None => None,
        },
    )
}

/// The map after loading `files` in their order into `start`, where every
/// file gives a key pair. A later file replaces an earlier one with the same
/// identifier.
pub open spec fn loaded_map(start: Map<Seq<char>, KeyPairView>, files: Seq<KeyMaterial>) -> Option<
    Map<Seq<char>, KeyPairView>,
>
    decreases files.len(),
{
    if files.len() == 0 {
        Some(start)
    } else {
        match (loaded_map(start, files.drop_last()), loaded_from(files.last())) {
            (Some(map), Some(pair)) => Some(map.insert(pair.key_id, pair)),
            _ => None,
        }
    }
}

/// Whether the key type at index `k` of `types` is generated under `id`.
/// The 521-bit curve is never generated.
pub open spec fn generates(types: Seq<KeyType>, k: int, id: Seq<char>) -> bool {
    0 <= k < types.len() && types[k] != KeyType::EccP521 && generated_id(types[k]) == id
}

/// Whether some key type of `types` is generated under `id`.
pub open spec fn is_generated_id(types: Seq<KeyType>, id: Seq<char>) -> bool {
    exists|k: int| generates(types, k, id)
}

/// Whether `after` is `before` with one generated key for each key type of
/// `types` but the 521-bit curve: the generated identifiers are added, every
/// other entry stays, and each generated entry has its identifier, a type of
/// `types` that is generated under it, and a public key that matches its
/// private key.
pub open spec fn grown_by_generation(
    before: Map<Seq<char>, KeyPairView>,
    after: Map<Seq<char>, KeyPairView>,
    types: Seq<KeyType>,
) -> bool {
    &&& forall|id: Seq<char>| #[trigger]
        after.contains_key(id) <==> before.contains_key(id) || is_generated_id(types, id)
    &&& forall|id: Seq<char>|
        after.contains_key(id) && !is_generated_id(types, id) ==> #[trigger] after[id]
            == before[id]
    &&& forall|id: Seq<char>| #[trigger]
        is_generated_id(types, id) ==> after[id].key_id == id && is_generated_type(
            types,
            id,
            after[id].key_type,
        ) && keys_match(after[id])
}

/// Whether `key_type` is one of `types` that is generated under `id`.
pub open spec fn is_generated_type(types: Seq<KeyType>, id: Seq<char>, key_type: KeyType) -> bool {
    exists|k: int| generates(types, k, id) && types[k] == key_type
}

/// Whether `after` is what is left when filling `before` stops early: the
/// keys of the files before the one that gave no key pair, or the keys of
/// all files and those that were generated before the one that failed.
pub open spec fn stopped_early(
    before: Map<Seq<char>, KeyPairView>,
    after: Map<Seq<char>, KeyPairView>,
    files: Seq<KeyMaterial>,
    types: Seq<KeyType>,
) -> bool {
    ||| exists|k: int|
        0 <= k < files.len() && loaded_map(before, #[trigger] files.subrange(0, k)) == Some(after)
    ||| loaded_map(before, files) matches Some(loaded) && exists|k: int|
        0 <= k < types.len() && grown_by_generation(loaded, after, #[trigger] types.subrange(0, k))
}

/// Whether every file comes with its public key.
pub open spec fn all_with_public_key(files: Seq<KeyMaterial>) -> bool {
    forall|i: int| 0 <= i < files.len() ==> (#[trigger] files[i]).public_key is Some
}

/// Whether every key type is the 521-bit curve.
pub open spec fn all_p521(types: Seq<KeyType>) -> bool {
    forall|k: int| 0 <= k < types.len() ==> #[trigger] types[k] == KeyType::EccP521
}

/// The keys of the system by identifier, with the configuration that says
/// which keys are loaded and generated at the start.
#[derive(Debug)]
pub struct KeyManager {
    keys: Vec<KeyPair>,
    generation_config: KeyGenerationConfig,
    loading_config: KeyLoadingConfig,
    rng: ring::rand::SystemRandom,
}

impl View for KeyManager {
    type V = Map<Seq<char>, KeyPairView>;

    /// The key pairs by identifier.
    closed spec fn view(&self) -> Map<Seq<char>, KeyPairView> {
        key_map(self.keys@)
    }
}

impl KeyManager {
    #[verifier::type_invariant]
    spec fn well_formed(self) -> bool {
        ids_distinct(self.keys@)
    }

    /// The identifiers of the keys, each once, in the order in which they
    /// first came.
    pub closed spec fn ids(&self) -> Seq<Seq<char>> {
        ids_of(self.keys@)
    }

    /// The key types that are generated at the start.
    pub closed spec fn generated_types(&self) -> Seq<KeyType> {
        self.generation_config.key_types@
    }

    /// Whether keys are generated at the start.
    pub closed spec fn generates_at_startup(&self) -> bool {
        self.generation_config.generate_at_startup
    }

    /// The key files that are named for loading at the start.
    pub closed spec fn loading(&self) -> KeyLoadingConfig {
        self.loading_config
    }

    /// A key manager without keys.
    pub fn new(generation_config: KeyGenerationConfig, loading_config: KeyLoadingConfig) -> (out:
        Self)
        ensures
            out@ == Map::<Seq<char>, KeyPairView>::empty(),
            out.ids() == Seq::<Seq<char>>::empty(),
            out.generated_types() == generation_config.key_types@,
            out.generates_at_startup() == generation_config.generate_at_startup,
            out.loading() == loading_config,
    {
        let out = KeyManager {
            keys: Vec::new(),
            generation_config,
            loading_config,
            rng: system_random(),
        };
        assert(ids_of(out.keys@) =~= Seq::<Seq<char>>::empty());
        out
    }

    /// The configuration of the keys that are generated at the start.
    pub fn generation_config(&self) -> (config: &KeyGenerationConfig)
        ensures
            config.key_types@ == self.generated_types(),
            config.generate_at_startup == self.generates_at_startup(),
    {
        &self.generation_config
    }

    /// The configuration of the key files that are loaded at the start, as
    /// the manager was made with it.
    pub fn loading_config(&self) -> (config: &KeyLoadingConfig)
        ensures
            *config == self.loading(),
    {
        &self.loading_config
    }

    fn find(&self, key_id: &str) -> (at: Option<usize>)
        ensures
            match at {
                Some(i) => i < self.keys@.len() && self.keys@[i as int].key_id@ == key_id@,
                None => forall|i: int|
                    0 <= i < self.keys@.len() ==> (#[trigger] self.keys@[i]).key_id@ != key_id@,
            },
    {
        let mut i: usize = 0;
        while i < self.keys.len()
            invariant
                i <= self.keys@.len(),
                forall|k: int| 0 <= k < i ==> (#[trigger] self.keys@[k]).key_id@ != key_id@,
            decreases self.keys@.len() - i,
        {
            if same_text(self.keys[i].key_id.as_str(), key_id) {
                return Some(i);
            }
            i = i + 1;
        }
        None
    }

    /// The key pair with identifier `key_id`, if there is one.
    pub fn get_key(&self, key_id: &str) -> (found: Option<&KeyPair>)
        ensures
            match found {
                Some(pair) => self@.contains_key(key_id@) && self@[key_id@] == pair@,
                None => !self@.contains_key(key_id@),
            },
    {
        proof {
            use_type_invariant(self);
            lemma_position(self.keys@, key_id@);
        }
        match self.find(key_id) {
            Some(i) => {
                proof {
                    lemma_position_distinct(self.keys@, i as int);
                }
                Some(&self.keys[i])
            },
            None => None,
        }
    }

    /// The first key pair of type `key_type`, in the order in which the
    /// identifiers first came, if there is one.
    pub fn get_key_by_type(&self, key_type: KeyType) -> (found: Option<&KeyPair>)
        ensures
            match found {
                Some(pair) => pair.key_type == key_type && self@.contains_key(pair.key_id@)
                    && self@[pair.key_id@] == pair@ && exists|i: int|
                    first_of_type(self.ids(), self@, key_type, i) && self.ids()[i] == pair.key_id@,
                None => forall|id: Seq<char>|
                    self@.contains_key(id) ==> (#[trigger] self@[id]).key_type != key_type,
            },
    {
        proof {
            use_type_invariant(self);
        }
        let mut i: usize = 0;
        while i < self.keys.len()
            invariant
                i <= self.keys@.len(),
                ids_distinct(self.keys@),
                forall|k: int| 0 <= k < i ==> (#[trigger] self.keys@[k]).key_type != key_type,
            decreases self.keys@.len() - i,
        {
            if self.keys[i].key_type == key_type {
                proof {
                    lemma_position_distinct(self.keys@, i as int);
                    lemma_position(self.keys@, self.keys@[i as int].key_id@);
                    let ids = ids_of(self.keys@);
                    assert forall|j: int| 0 <= j < i implies key_map(self.keys@)[#[trigger] ids[j]].key_type
                        != key_type by {
                        lemma_position_distinct(self.keys@, j);
                        lemma_position(self.keys@, self.keys@[j].key_id@);
                    }
                    assert(ids[i as int] == self.keys@[i as int].key_id@);
                    assert(first_of_type(self.ids(), self@, key_type, i as int) && self.ids()[i as int]
                        == self.keys@[i as int].key_id@);
                }
                return Some(&self.keys[i]);
            }
            i = i + 1;
        }
        proof {
            assert forall|id: Seq<char>| self@.contains_key(id) implies (
            #[trigger] self@[id]).key_type != key_type by {
                lemma_position(self.keys@, id);
                let k = position(self.keys@, id)->0;
                assert(self.keys@[k].key_type != key_type);
            }
        }
        None
    }

    /// Puts `key_pair` under its identifier. A key pair that was there under
    /// the same identifier is replaced.
    pub fn add_key(&mut self, key_pair: KeyPair)
        ensures
            final(self)@ == old(self)@.insert(key_pair.key_id@, key_pair@),
            final(self).generated_types() == old(self).generated_types(),
            final(self).generates_at_startup() == old(self).generates_at_startup(),
            final(self).loading() == old(self).loading(),
            final(self).ids() == if old(self)@.contains_key(key_pair.key_id@) {
                old(self).ids()
            } else {
                old(self).ids().push(key_pair.key_id@)
            },
    {
        proof {
            use_type_invariant(&*self);
            lemma_position(self.keys@, key_pair.key_id@);
        }
        match self.find(key_pair.key_id.as_str()) {
            Some(i) => {
                proof {
                    lemma_replace(self.keys@, i as int, key_pair);
                }
                let mut keys: Vec<KeyPair> = Vec::new();
                core::mem::swap(&mut self.keys, &mut keys);
                keys.set(i, key_pair);
                self.keys = keys;
            },
            None => {
                proof {
                    lemma_append(self.keys@, key_pair);
                }
                let mut keys: Vec<KeyPair> = Vec::new();
                core::mem::swap(&mut self.keys, &mut keys);
                keys.push(key_pair);
                self.keys = keys;
            },
        }
    }

    /// Removes the key pair with identifier `key_id`, and says whether there
    /// was one.
    pub fn delete_key(&mut self, key_id: &str) -> (removed: bool)
        ensures
            removed == old(self)@.contains_key(key_id@),
            final(self)@ == old(self)@.remove(key_id@),
            final(self).generated_types() == old(self).generated_types(),
            final(self).generates_at_startup() == old(self).generates_at_startup(),
            final(self).loading() == old(self).loading(),
    {
        proof {
            use_type_invariant(&*self);
            lemma_position(self.keys@, key_id@);
        }
        match self.find(key_id) {
            Some(i) => {
                proof {
                    lemma_remove(self.keys@, i as int);
                }
                let mut keys: Vec<KeyPair> = Vec::new();
                core::mem::swap(&mut self.keys, &mut keys);
                let _ = keys.remove(i);
                self.keys = keys;
                true
            },
            None => {
                proof {
                    assert(self@.remove(key_id@) =~= self@);
                }
                false
            },
        }
    }

    /// The identifiers of all keys: those of the map, each once.
    pub fn list_keys(&self) -> (ids: Vec<String>)
        ensures
            ids@.len() == self.ids().len(),
            forall|i: int| 0 <= i < ids@.len() ==> (#[trigger] ids@[i])@ == self.ids()[i],
            self.ids().no_duplicates(),
            forall|id: Seq<char>| self.ids().contains(id) <==> self@.contains_key(id),
    {
        proof {
            use_type_invariant(self);
            lemma_ids_of(self.keys@);
        }
        let mut ids: Vec<String> = Vec::new();
        let mut i: usize = 0;
        while i < self.keys.len()
            invariant
                i <= self.keys@.len(),
                ids@.len() == i,
                forall|k: int| 0 <= k < i ==> (#[trigger] ids@[k])@ == self.keys@[k].key_id@,
            decreases self.keys@.len() - i,
        {
            ids.push(self.keys[i].key_id.clone());
            i = i + 1;
        }
        ids
    }

    /// The number of keys.
    pub fn key_count(&self) -> (count: usize)
        ensures
            count == self.ids().len(),
    {
        self.keys.len()
    }
}

fn generated_id_string(key_type: KeyType) -> (id: String)
    ensures
        id@ == generated_id(key_type),
{
    match key_type {
        KeyType::Rsa2048 => String::from_str("rsa_2048"),
        KeyType::Rsa3072 => String::from_str("rsa_3072"),
        KeyType::Rsa4096 => String::from_str("rsa_4096"),
        KeyType::EccP256 => String::from_str("ecc_EccP256"),
        KeyType::EccP384 => String::from_str("ecc_EccP384"),
        KeyType::EccP521 => String::from_str("ecc_EccP521"),
    }
}

impl KeyManager {
    /// Generates an RSA key pair of the size of `key_type`. Every other key
    /// type is unsupported. A key pair that comes back is kept under the
    /// generated identifier of its type, and its public key is the one that
    /// its private key holds; a generator that fails is a key generation
    /// error.
    pub fn generate_rsa_key(&self, key_type: KeyType) -> (made: Result<KeyPair, Error>)
        ensures
            !key_type.is_rsa() ==> (made matches Err(
                Error::Crypto(CryptoError::UnsupportedAlgorithm { algorithm }),
            ) && algorithm@ == key_type.name()),
            key_type.is_rsa() ==> match made {
                Ok(pair) => pair.key_type == key_type && pair.key_id@ == generated_id(key_type)
                    && keys_match(pair@),
                Err(e) => e matches Error::Crypto(CryptoError::KeyGeneration { .. }),
            },
    {
        let bits: usize = match key_type {
            KeyType::Rsa2048 => 2048,
            KeyType::Rsa3072 => 3072,
            KeyType::Rsa4096 => 4096,
            _ => {
                return Err(
                    Error::Crypto(
                        CryptoError::UnsupportedAlgorithm {
                            algorithm: String::from_str(key_type.as_str()),
                        },
                    ),
                );
            },
        };
        let private_key = match rsa_generate_pkcs8(bits) {
            Some(document) => document,
            None => {
                return Err(
                    Error::Crypto(
                        CryptoError::KeyGeneration {
                            reason: join2("Failed to generate RSA key ", key_type.as_str()),
                        },
                    ),
                );
            },
        };
        let public_key = match rsa_public_from_pkcs8(private_key.as_slice()) {
            Some(key) => key,
            None => {
                return Err(
                    Error::Crypto(
                        CryptoError::KeyGeneration {
                            reason: String::from_str("Failed to parse generated RSA key"),
                        },
                    ),
                );
            },
        };
        Ok(KeyPair { key_id: generated_id_string(key_type), key_type, private_key, public_key })
    }

    /// Generates an elliptic-curve key pair on the curve of `key_type`. A
    /// key type without a curve that can sign is unsupported. A key pair that
    /// comes back is kept under the generated identifier of its type, and its
    /// public key is the one that its private key holds; a generator that
    /// fails is a key generation error.
    pub fn generate_ecc_key(&self, key_type: KeyType) -> (made: Result<KeyPair, Error>)
        ensures
            curve_of(key_type) is None ==> (made matches Err(
                Error::Crypto(CryptoError::UnsupportedAlgorithm { algorithm }),
            ) && algorithm@ == key_type.name() + " - P-521 not supported"@),
            curve_of(key_type) is Some ==> match made {
                Ok(pair) => pair.key_type == key_type && pair.key_id@ == generated_id(key_type)
                    && keys_match(pair@),
                Err(e) => e matches Error::Crypto(CryptoError::KeyGeneration { .. }),
            },
    {
        let curve = match curve_for(key_type) {
            Some(curve) => curve,
            None => {
                return Err(
                    Error::Crypto(
                        CryptoError::UnsupportedAlgorithm {
                            algorithm: join2(key_type.as_str(), " - P-521 not supported"),
                        },
                    ),
                );
            },
        };
        let private_key = match ecdsa_generate_pkcs8(curve, &self.rng) {
            Some(document) => document,
            None => {
                return Err(
                    Error::Crypto(
                        CryptoError::KeyGeneration {
                            reason: join2("Failed to generate ECC key ", key_type.as_str()),
                        },
                    ),
                );
            },
        };
        let public_key = match ecdsa_public_from_pkcs8(curve, private_key.as_slice(), &self.rng) {
            Some(key) => key,
            None => {
                return Err(
                    Error::Crypto(
                        CryptoError::KeyGeneration {
                            reason: String::from_str("Failed to parse generated ECC key"),
                        },
                    ),
                );
            },
        };
        Ok(KeyPair { key_id: generated_id_string(key_type), key_type, private_key, public_key })
    }

    /// The public key that `private_key` holds, for a key of type
    /// `key_type`. Derivation is unsupported for RSA keys and for the 521-bit
    /// curve. On the other two curves a key that comes back is the public
    /// key of the document; a document that gives none is an invalid key
    /// format.
    pub fn derive_public_key(&self, private_key: &[u8], key_type: KeyType) -> (derived: Result<
        Vec<u8>,
        Error,
    >)
        ensures
            match curve_of(key_type) {
                None => derived matches Err(
                    Error::Crypto(CryptoError::UnsupportedAlgorithm { algorithm }),
                ) && algorithm@ == key_type.name() + " public key derivation not supported"@,
                Some(curve) => match derived {
                    Ok(key) => ecdsa_public_key(curve, private_key@) == Some(key@),
                    Err(e) => e matches Error::Crypto(CryptoError::InvalidKeyFormat { reason })
                        && reason@ == "Invalid private key format for "@ + key_type.name(),
                },
            },
    {
        match curve_for(key_type) {
            None => Err(
                Error::Crypto(
                    CryptoError::UnsupportedAlgorithm {
                        algorithm: join2(key_type.as_str(), " public key derivation not supported"),
                    },
                ),
            ),
            Some(curve) => match ecdsa_public_from_pkcs8(curve, private_key, &self.rng) {
                Some(key) => Ok(key),
                None => Err(
                    Error::Crypto(
                        CryptoError::InvalidKeyFormat {
                            reason: join2("Invalid private key format for ", key_type.as_str()),
                        },
                    ),
                ),
            },
        }
    }

    /// Makes a key pair of the contents of a key file. With a public key the
    /// pair is made as it is. Without one the public key is derived from the
    /// private key, and the errors of the derivation are those of loading.
    pub fn load_key(
        &self,
        key_id: String,
        key_type: KeyType,
        private_key: Vec<u8>,
        public_key: Option<Vec<u8>>,
    ) -> (loaded: Result<KeyPair, Error>)
        ensures
            public_key is Some ==> loaded is Ok,
            loaded matches Ok(pair) ==> Some(pair@) == loaded_pair(
                key_id@,
                key_type,
                private_key@,
                match public_key {
                    Some(bytes) => Some(bytes@),
                    None => None,
                },
            ),
            loaded matches Err(e) ==> match curve_of(key_type) {
                None => e matches Error::Crypto(CryptoError::UnsupportedAlgorithm { .. }),
                Some(_) => e matches Error::Crypto(CryptoError::InvalidKeyFormat { .. }),
            },
    {
        let public_key = match public_key {
            Some(bytes) => bytes,
            None => match self.derive_public_key(private_key.as_slice(), key_type) {
                Ok(bytes) => bytes,
                Err(e) => {
                    return Err(e);
                },
            },
        };
        Ok(KeyPair { key_id, key_type, private_key, public_key })
    }

    /// Loads the contents of the configured key files, in their order. It
    /// stops at the first file that gives no key pair, and keeps what was
    /// loaded before it.
    pub fn load_keys(&mut self, files: Vec<KeyMaterial>) -> (done: Result<(), Error>)
        ensures
            final(self).generated_types() == old(self).generated_types(),
            final(self).generates_at_startup() == old(self).generates_at_startup(),
            final(self).loading() == old(self).loading(),
            done is Ok ==> loaded_map(old(self)@, files@) == Some(final(self)@),
            all_with_public_key(files@) ==> done is Ok,
            done matches Err(e) ==> e is Crypto && exists|k: int|
                0 <= k < files@.len() && loaded_map(old(self)@, files@.subrange(0, k)) == Some(
                    final(self)@,
                ),
    {
        let ghost all = files@;
        let ghost start = self@;
        let mut pending = files;
        let mut rest: Vec<KeyMaterial> = Vec::new();
        // The files are taken from the end, so they are turned round first.
        while pending.len() > 0
            invariant
                pending@.len() + rest@.len() == all.len(),
                forall|i: int| 0 <= i < pending@.len() ==> pending@[i] == all[i],
                forall|i: int| 0 <= i < rest@.len() ==> rest@[i] == all[all.len() - 1 - i],
            decreases pending@.len(),
        {
            let file = pending.pop().unwrap();
            rest.push(file);
        }
        let ghost mut taken: int = 0;
        while rest.len() > 0
            invariant
                0 <= taken <= all.len(),
                rest@.len() == all.len() - taken,
                forall|i: int|
                    0 <= i < rest@.len() ==> rest@[i] == all[all.len() - 1 - i],
                loaded_map(start, all.subrange(0, taken)) == Some(self@),
                all == files@,
                start == old(self)@,
                self.generated_types() == old(self).generated_types(),
                self.generates_at_startup() == old(self).generates_at_startup(),
                self.loading() == old(self).loading(),
            decreases rest@.len(),
        {
            let file = rest.pop().unwrap();
            proof {
                assert(file == all[taken]);
                assert(all.subrange(0, taken + 1).drop_last() =~= all.subrange(0, taken));
                assert(all.subrange(0, taken + 1).last() == all[taken]);
            }
            let KeyMaterial { key_id, key_type, private_key, public_key } = file;
            match self.load_key(key_id, key_type, private_key, public_key) {
                Ok(pair) => {
                    self.add_key(pair);
                },
                Err(e) => {
                    return Err(e);
                },
            }
            proof {
                taken = taken + 1;
            }
        }
        proof {
            assert(all.subrange(0, taken) =~= all);
        }
        Ok(())
    }

    /// Generates one key for each configured key type and puts it under its
    /// generated identifier. The 521-bit curve is passed over. It stops at
    /// the first key that cannot be generated.
    pub fn generate_keys(&mut self) -> (done: Result<(), Error>)
        ensures
            final(self).generated_types() == old(self).generated_types(),
            final(self).generates_at_startup() == old(self).generates_at_startup(),
            final(self).loading() == old(self).loading(),
            done is Ok ==> grown_by_generation(
                old(self)@,
                final(self)@,
                old(self).generated_types(),
            ),
            all_p521(old(self).generated_types()) ==> done is Ok && final(self)@ == old(self)@,
            done matches Err(e) ==> e matches Error::Crypto(CryptoError::KeyGeneration { .. })
                && exists|k: int|
                0 <= k < old(self).generated_types().len() && grown_by_generation(
                    old(self)@,
                    final(self)@,
                    old(self).generated_types().subrange(0, k),
                ),
    {
        let ghost before = self@;
        let ghost types = self.generation_config.key_types@;
        let mut i: usize = 0;
        proof {
            lemma_grown_start(before, types.subrange(0, 0));
        }
        while i < self.generation_config.key_types.len()
            invariant
                i <= types.len(),
                types == self.generation_config.key_types@,
                self.generated_types() == old(self).generated_types(),
                self.generates_at_startup() == old(self).generates_at_startup(),
                self.loading() == old(self).loading(),
                grown_by_generation(before, self@, types.subrange(0, i as int)),
                all_p521(types) ==> self@ == before,
                before == old(self)@,
                types == old(self).generated_types(),
            decreases types.len() - i,
        {
            let key_type = self.generation_config.key_types[i];
            let ghost now = self@;
            let made = match key_type {
                KeyType::Rsa2048 | KeyType::Rsa3072 | KeyType::Rsa4096 => Some(
                    self.generate_rsa_key(key_type),
                ),
                KeyType::EccP256 | KeyType::EccP384 => Some(self.generate_ecc_key(key_type)),
                KeyType::EccP521 => None,
            };
            match made {
                Some(Ok(pair)) => {
                    proof {
                        lemma_grown_step(before, now, types.subrange(0, i as int), pair@);
                        assert(types.subrange(0, i as int).push(key_type) =~= types.subrange(
                            0,
                            i + 1,
                        ));
                    }
                    self.add_key(pair);
                },
                Some(Err(e)) => {
                    proof {
                        assert(grown_by_generation(
                            old(self)@,
                            self@,
                            old(self).generated_types().subrange(0, i as int),
                        ));
                    }
                    return Err(e);
                },
                None => {
                    proof {
                        lemma_grown_skip(before, now, types.subrange(0, i as int));
                        assert(types.subrange(0, i as int).push(key_type) =~= types.subrange(
                            0,
                            i + 1,
                        ));
                    }
                },
            }
            i = i + 1;
        }
        proof {
            assert(types.subrange(0, i as int) =~= types);
        }
        Ok(())
    }

    /// Fills the key manager at the start: first the contents of the
    /// configured key files are loaded, then, where the configuration says
    /// so, one key is generated for each configured key type.
    pub fn initialize(&mut self, files: Vec<KeyMaterial>) -> (done: Result<(), Error>)
        ensures
            final(self).generated_types() == old(self).generated_types(),
            final(self).generates_at_startup() == old(self).generates_at_startup(),
            final(self).loading() == old(self).loading(),
            done is Ok ==> (loaded_map(old(self)@, files@) matches Some(loaded) && if old(self).generates_at_startup() {
                grown_by_generation(loaded, final(self)@, old(self).generated_types())
            } else {
                final(self)@ == loaded
            }),
            all_with_public_key(files@) && (!old(self).generates_at_startup() || all_p521(
                old(self).generated_types(),
            )) ==> done is Ok,
            done matches Err(e) ==> e is Crypto && stopped_early(
                old(self)@,
                final(self)@,
                files@,
                old(self).generated_types(),
            ),
    {
        match self.load_keys(files) {
            Ok(()) => {},
            Err(e) => {
                return Err(e);
            },
        }
        if self.generation_config.generate_at_startup {
            self.generate_keys()
        } else {
            Ok(())
        }
    }
}

/// Nothing is generated for no key types.
proof fn lemma_grown_start(before: Map<Seq<char>, KeyPairView>, types: Seq<KeyType>)
    requires
        types.len() == 0,
    ensures
        grown_by_generation(before, before, types),
{
    assert forall|id: Seq<char>| !is_generated_id(types, id) by {
        if is_generated_id(types, id) {
            let k = choose|k: int| generates(types, k, id);
            assert(generates(types, k, id));
        }
    }
}

/// Passing over the 521-bit curve generates nothing.
proof fn lemma_grown_skip(
    before: Map<Seq<char>, KeyPairView>,
    now: Map<Seq<char>, KeyPairView>,
    types: Seq<KeyType>,
)
    requires
        grown_by_generation(before, now, types),
    ensures
        grown_by_generation(before, now, types.push(KeyType::EccP521)),
{
    let more = types.push(KeyType::EccP521);
    assert forall|id: Seq<char>| is_generated_id(more, id) <==> is_generated_id(types, id) by {
        if is_generated_id(more, id) {
            let k = choose|k: int| generates(more, k, id);
            assert(generates(types, k, id));
        }
        if is_generated_id(types, id) {
            let k = choose|k: int| generates(types, k, id);
            assert(more[k] == types[k]);
            assert(generates(more, k, id));
        }
    }
    assert forall|id: Seq<char>| is_generated_id(more, id) implies is_generated_type(
        more,
        id,
        now[id].key_type,
    ) by {
        assert(is_generated_id(types, id));
        let k = choose|k: int| generates(types, k, id) && types[k] == now[id].key_type;
        assert(more[k] == types[k]);
        assert(generates(more, k, id) && more[k] == now[id].key_type);
    }
}

/// Putting a generated key under its identifier generates its key type.
proof fn lemma_grown_step(
    before: Map<Seq<char>, KeyPairView>,
    now: Map<Seq<char>, KeyPairView>,
    types: Seq<KeyType>,
    pair: KeyPairView,
)
    requires
        grown_by_generation(before, now, types),
        pair.key_type != KeyType::EccP521,
        pair.key_id == generated_id(pair.key_type),
        keys_match(pair),
    ensures
        grown_by_generation(before, now.insert(pair.key_id, pair), types.push(pair.key_type)),
{
    let more = types.push(pair.key_type);
    let after = now.insert(pair.key_id, pair);
    let last = types.len() as int;
    assert(generates(more, last, pair.key_id));
    assert forall|id: Seq<char>|
        is_generated_id(more, id) <==> is_generated_id(types, id) || id == pair.key_id by {
        if is_generated_id(more, id) {
            let k = choose|k: int| generates(more, k, id);
            if k < last {
                assert(generates(types, k, id));
            }
        }
        if is_generated_id(types, id) {
            let k = choose|k: int| generates(types, k, id);
            assert(more[k] == types[k]);
            assert(generates(more, k, id));
        }
    }
    assert forall|id: Seq<char>| is_generated_id(more, id) implies is_generated_type(
        more,
        id,
        after[id].key_type,
    ) by {
        if id == pair.key_id {
            assert(generates(more, last, id) && more[last] == after[id].key_type);
        } else {
            assert(is_generated_id(types, id));
            let k = choose|k: int| generates(types, k, id) && types[k] == now[id].key_type;
            assert(more[k] == types[k]);
            assert(generates(more, k, id) && more[k] == after[id].key_type);
        }
    }
}

} // verus!
