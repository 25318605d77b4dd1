use hashdb::{DBValue, Hasher};
use keccak_hasher::KeccakHasher;
use memorydb::MemoryDB;
use patricia_trie::{Query, Trie, TrieMut};
use patricia_trie_ethereum::{TrieDB, TrieDBMut};
use trie_recorder::recorder::{Record, Recorder};
use trie_recorder::types::H256;

type TrieHash = <KeccakHasher as Hasher>::Out;

/// A recorder attached to one lookup.
struct Attached<'a>(&'a mut Recorder);

impl<'a> Query<KeccakHasher> for Attached<'a> {
    type Item = DBValue;

    fn decode(self, value: &[u8]) -> DBValue {
        DBValue::from_slice(value)
    }

    fn record(&mut self, hash: &TrieHash, data: &[u8], depth: u32) {
        self.0.record(&H256(hash.0), data, depth);
    }
}

/// The same, with every node checked on its way in.
struct AttachedChecked<'a>(&'a mut Recorder);

impl<'a> Query<KeccakHasher> for AttachedChecked<'a> {
    type Item = DBValue;

    fn decode(self, value: &[u8]) -> DBValue {
        DBValue::from_slice(value)
    }

    fn record(&mut self, hash: &TrieHash, data: &[u8], depth: u32) {
        assert!(self.0.record_checked(&H256(hash.0), data, depth));
    }
}

fn fill(db: &mut MemoryDB<KeccakHasher>, root: &mut TrieHash) {
    let mut x = TrieDBMut::new(db, root);

    x.insert(b"dog", b"cat").unwrap();
    x.insert(b"lunch", b"time").unwrap();
    x.insert(b"notdog", b"notcat").unwrap();
    x.insert(b"hotdog", b"hotcat").unwrap();
    x.insert(b"letter", b"confusion").unwrap();
    x.insert(b"insert", b"remove").unwrap();
    x.insert(b"pirate", b"aargh!").unwrap();
    x.insert(b"yo ho ho", b"and a bottle of rum").unwrap();
}

fn holds(haystack: &[u8], needle: &[u8]) -> bool {
    haystack.windows(needle.len()).any(|window| window == needle)
}

#[test]
fn trie_record() {
    let mut db = MemoryDB::<KeccakHasher>::new();

    let mut root = TrieHash::default();

    fill(&mut db, &mut root);

    let trie = TrieDB::new(&db, &root).unwrap();
    let mut recorder = Recorder::new();

    trie.get_with(b"pirate", Attached(&mut recorder))
        .unwrap()
        .unwrap();
    let nodes: Vec<_> = recorder.drain().into_iter().map(|r| r.data).collect();

    let expected = vec![
        vec![
            248, 81, 128, 128, 128, 128, 128, 128, 160, 50, 19, 71, 57, 213, 63, 125, 149, 92,
            119, 88, 96, 80, 126, 59, 11, 160, 142, 98, 229, 237, 200, 231, 224, 79, 118, 215,
            93, 144, 246, 179, 176, 160, 118, 211, 171, 199, 172, 136, 136, 240, 221, 59, 110,
            82, 86, 54, 23, 95, 48, 108, 71, 125, 59, 51, 253, 210, 18, 116, 79, 0, 236, 102,
            142, 48, 128, 128, 128, 128, 128, 128, 128, 128, 128,
        ],
        vec![
            248, 60, 206, 134, 32, 105, 114, 97, 116, 101, 134, 97, 97, 114, 103, 104, 33, 128,
            128, 128, 128, 128, 128, 128, 128, 221, 136, 32, 111, 32, 104, 111, 32, 104, 111,
            147, 97, 110, 100, 32, 97, 32, 98, 111, 116, 116, 108, 101, 32, 111, 102, 32, 114,
            117, 109, 128, 128, 128, 128, 128, 128, 128,
        ],
    ];

    assert_eq!(nodes, expected);

    trie.get_with(b"letter", Attached(&mut recorder))
        .unwrap()
        .unwrap();
    let nodes: Vec<_> = recorder.drain().into_iter().map(|r| r.data).collect();

    let expected = vec![
        vec![
            248, 81, 128, 128, 128, 128, 128, 128, 160, 50, 19, 71, 57, 213, 63, 125, 149, 92,
            119, 88, 96, 80, 126, 59, 11, 160, 142, 98, 229, 237, 200, 231, 224, 79, 118, 215,
            93, 144, 246, 179, 176, 160, 118, 211, 171, 199, 172, 136, 136, 240, 221, 59, 110,
            82, 86, 54, 23, 95, 48, 108, 71, 125, 59, 51, 253, 210, 18, 116, 79, 0, 236, 102,
            142, 48, 128, 128, 128, 128, 128, 128, 128, 128, 128,
        ],
        vec![
            248, 99, 128, 128, 128, 128, 200, 131, 32, 111, 103, 131, 99, 97, 116, 128, 128,
            128, 206, 134, 32, 111, 116, 100, 111, 103, 134, 104, 111, 116, 99, 97, 116, 206,
            134, 32, 110, 115, 101, 114, 116, 134, 114, 101, 109, 111, 118, 101, 128, 128, 160,
            202, 250, 252, 153, 229, 63, 255, 13, 100, 197, 80, 120, 190, 186, 92, 5, 255, 135,
            245, 205, 180, 213, 161, 8, 47, 107, 13, 105, 218, 1, 9, 5, 128, 206, 134, 32, 111,
            116, 100, 111, 103, 134, 110, 111, 116, 99, 97, 116, 128, 128,
        ],
        vec![
            235, 128, 128, 128, 128, 128, 128, 208, 133, 53, 116, 116, 101, 114, 137, 99, 111,
            110, 102, 117, 115, 105, 111, 110, 202, 132, 53, 110, 99, 104, 132, 116, 105, 109,
            101, 128, 128, 128, 128, 128, 128, 128, 128, 128,
        ],
    ];

    assert_eq!(nodes, expected);
}

#[test]
fn a_recorded_lookup_chains_from_the_root() {
    let mut db = MemoryDB::<KeccakHasher>::new();
    let mut root = TrieHash::default();
    fill(&mut db, &mut root);
    let trie = TrieDB::new(&db, &root).unwrap();
    let mut recorder = Recorder::new();

    for key in [&b"letter"[..], b"pirate", b"dog", b"yo ho ho", b"hotdog"] {
        let value = trie
            .get_with(key, AttachedChecked(&mut recorder))
            .unwrap()
            .unwrap();
        let records = recorder.drain();

        // The first node is the one that the root hash names, every later
        // node is named by the one before it, and the last holds the value.
        assert_eq!(records[0].hash, H256(root.0));
        for (at, record) in records.iter().enumerate() {
            assert_eq!(record.depth as usize, at);
            assert_eq!(record.hash, H256(KeccakHasher::hash(&record.data).0));
            if at > 0 {
                assert!(holds(&records[at - 1].data, &record.hash.0));
            }
        }
        assert!(holds(&records[records.len() - 1].data, &value));

        // The same lookup records the same nodes again.
        trie.get_with(key, Attached(&mut recorder)).unwrap().unwrap();
        assert_eq!(recorder.drain(), records);
    }
}

#[test]
fn a_lookup_that_finds_nothing_still_records_its_path() {
    let mut db = MemoryDB::<KeccakHasher>::new();
    let mut root = TrieHash::default();
    fill(&mut db, &mut root);
    let trie = TrieDB::new(&db, &root).unwrap();
    let mut recorder = Recorder::new();

    assert!(trie
        .get_with(b"lettuce", Attached(&mut recorder))
        .unwrap()
        .is_none());
    let records = recorder.drain();
    assert!(!records.is_empty());
    assert_eq!(records[0].hash, H256(root.0));
    assert_eq!(recorder.drain(), Vec::<Record>::new());
}

#[test]
fn a_minimum_depth_drops_the_top_of_the_path() {
    let mut db = MemoryDB::<KeccakHasher>::new();
    let mut root = TrieHash::default();
    fill(&mut db, &mut root);
    let trie = TrieDB::new(&db, &root).unwrap();

    let mut whole = Recorder::new();
    trie.get_with(b"letter", Attached(&mut whole)).unwrap().unwrap();
    let all = whole.drain();
    assert_eq!(all.len(), 3);

    for min_depth in 0..5u32 {
        let mut recorder = Recorder::with_depth(min_depth);
        trie.get_with(b"letter", Attached(&mut recorder))
            .unwrap()
            .unwrap();
        let expected: Vec<Record> = all
            .iter()
            .filter(|record| record.depth >= min_depth)
            .cloned()
            .collect();
        assert_eq!(recorder.drain(), expected);
    }
}
