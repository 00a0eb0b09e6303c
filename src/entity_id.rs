//! Entity identifiers (`shard.realm.num`) and their network-salted checksum.
use vstd::prelude::*;
use crate::error::Error;

verus! {

/// Modulus of the three-letter partial digest.
pub const THREE_LETTER_MOD: u64 = 17576;

/// Modulus of the five-letter digest.
pub const FIVE_LETTER_MOD: u64 = 11881376;

/// Weight of each position in the weighted digest sums.
pub const WEIGHT: u64 = 31;

/// Multiplier applied to the digest before it is spelled out.
pub const SCRAMBLE: u64 = 1000003;

/// The identity of a ledger network, used to salt entity checksums.
#[derive(Clone, Debug, PartialEq, Eq)]
pub struct LedgerId {
    pub bytes: Vec<u8>,
}

impl View for LedgerId {
    type V = Seq<u8>;

    open spec fn view(&self) -> Seq<u8> {
        self.bytes@
    }
}

/// A reference to a ledger entity, with an optional five-letter checksum.
#[derive(Clone, Copy, Debug, PartialEq, Eq)]
pub struct EntityId {
    pub shard: u64,
    pub realm: u64,
    pub num: u64,
    pub checksum: Option<[u8; 5]>,
}

pub type AccountId = EntityId;

/// An account, named by its entity id or by its 20-byte EVM address.
#[derive(Clone, Copy, Debug, PartialEq, Eq)]
pub enum AccountAddress {
    AccountId(AccountId),
    EvmAddress([u8; 20]),
}

pub type ContractId = EntityId;

pub type TokenId = EntityId;

pub type TopicId = EntityId;

/// Decimal digits of `n`, most significant first.
pub open spec fn decimal_digits(n: nat) -> Seq<int>
    decreases n,
{
    if n < 10 {
        seq![n as int]
    } else {
        decimal_digits(n / 10).push((n % 10) as int)
    }
}

/// The digit string of `shard.realm.num`, with 10 standing for each dot.
pub open spec fn address_digits(shard: u64, realm: u64, num: u64) -> Seq<int> {
    decimal_digits(shard as nat).push(10) + decimal_digits(realm as nat).push(10) + decimal_digits(
        num as nat,
    )
}

/// Sum of `d`, each digit weighted by a power of `WEIGHT`, modulo `m`.
pub open spec fn weighted_sum(d: Seq<int>, m: int) -> int
    decreases d.len(),
{
    if d.len() == 0 {
        0
    } else {
        (WEIGHT * weighted_sum(d.drop_last(), m) + d.last()) % m
    }
}

/// Sum modulo 11 of the digits of `d` at positions of the given parity.
pub open spec fn parity_sum(d: Seq<int>, parity: int) -> int
    decreases d.len(),
{
    if d.len() == 0 {
        0
    } else if (d.len() - 1) % 2 == parity {
        (parity_sum(d.drop_last(), parity) + d.last()) % 11
    } else {
        parity_sum(d.drop_last(), parity)
    }
}

/// The bytes of the ledger identity followed by six zero bytes.
pub open spec fn salted(ledger: Seq<u8>) -> Seq<int> {
    ledger.map_values(|b: u8| b as int) + seq![0int, 0int, 0int, 0int, 0int, 0int]
}

/// The digest of an address for a ledger, before it is spelled out as letters.
pub open spec fn checksum_digest(shard: u64, realm: u64, num: u64, ledger: Seq<u8>) -> int {
    let d = address_digits(shard, realm, num);
    let c = ((((d.len() % 5) * 11 + parity_sum(d, 0)) * 11 + parity_sum(d, 1)) * THREE_LETTER_MOD + weighted_sum(
        d,
        THREE_LETTER_MOD as int,
    ) + weighted_sum(salted(ledger), FIVE_LETTER_MOD as int)) % (FIVE_LETTER_MOD as int);
    (c * SCRAMBLE) % (FIVE_LETTER_MOD as int)
}

/// The five lowercase letters that spell `c` in base 26, most significant first.
pub open spec fn spell(c: int) -> Seq<u8> {
    seq![
        (97 + (c / 456976) % 26) as u8,
        (97 + (c / 17576) % 26) as u8,
        (97 + (c / 676) % 26) as u8,
        (97 + (c / 26) % 26) as u8,
        (97 + c % 26) as u8,
    ]
}

/// The checksum that `shard.realm.num` carries on the given ledger.
pub open spec fn checksum_of(shard: u64, realm: u64, num: u64, ledger: Seq<u8>) -> Seq<u8> {
    spell(checksum_digest(shard, realm, num, ledger))
}

/// An entity reference passes validation on a ledger when it carries no
/// checksum or carries exactly the one computed for that ledger.
pub open spec fn checksum_valid(id: EntityId, ledger: Seq<u8>) -> bool {
    match id.checksum {
        None => true,
        Some(c) => c@ == checksum_of(id.shard, id.realm, id.num, ledger),
    }
}

spec fn pow10(k: nat) -> nat
    decreases k,
{
    if k == 0 {
        1
    } else {
        10 * pow10((k - 1) as nat)
    }
}

proof fn lemma_digits_len(n: nat, k: nat)
    requires
        n < pow10(k),
        k >= 1,
    ensures
        decimal_digits(n).len() <= k,
        forall|i: int| 0 <= i < decimal_digits(n).len() ==> 0 <= #[trigger] decimal_digits(n)[i] < 10,
    decreases n,
{
    if n >= 10 {
        if k == 1 {
            reveal_with_fuel(pow10, 2);
        } else {
            lemma_digits_len(n / 10, (k - 1) as nat);
        }
    }
}

proof fn lemma_digits_u64(n: u64)
    ensures
        1 <= decimal_digits(n as nat).len() <= 20,
        forall|i: int|
            0 <= i < decimal_digits(n as nat).len() ==> 0 <= #[trigger] decimal_digits(n as nat)[i]
                < 10,
{
    reveal_with_fuel(pow10, 21);
    lemma_digits_len(n as nat, 20);
    reveal_with_fuel(decimal_digits, 2);
}

/// Appends the decimal digits of `n` to `out`.
fn push_digits(n: u64, out: &mut Vec<u8>)
    ensures
        final(out)@.map_values(|b: u8| b as int) == old(out)@.map_values(|b: u8| b as int)
            + decimal_digits(n as nat),
        final(out)@.len() <= old(out)@.len() + 20,
    decreases n,
{
    if n >= 10 {
        push_digits(n / 10, out);
    }
    let ghost before = out@;
    out.push((n % 10) as u8);
    assert(out@.map_values(|b: u8| b as int) =~= before.map_values(|b: u8| b as int).push(
        (n % 10) as int,
    ));
    proof {
        lemma_digits_u64(n);
    }
}


/// Weighted digest of `d` modulo `m`, as `weighted_sum` states it.
fn weighted_sum_of(d: &Vec<u8>, m: u64) -> (r: u64)
    requires
        0 < m <= FIVE_LETTER_MOD,
    ensures
        r < m,
        r as int == weighted_sum(d@.map_values(|b: u8| b as int), m as int),
{
    let ghost ds = d@.map_values(|b: u8| b as int);
    let mut s: u64 = 0;
    let mut i: usize = 0;
    while i < d.len()
        invariant
            i <= d@.len(),
            ds == d@.map_values(|b: u8| b as int),
            0 < m <= FIVE_LETTER_MOD,
            s < m,
            s as int == weighted_sum(ds.take(i as int), m as int),
        decreases d.len() - i,
    {
        s = (WEIGHT * s + d[i] as u64) % m;
        proof {
            assert(ds.take(i + 1).drop_last() =~= ds.take(i as int));
        }
        i += 1;
    }
    proof {
        assert(ds.take(d@.len() as int) =~= ds);
    }
    s
}

/// Sum modulo 11 of the digits of `d` at positions of the given parity.
fn parity_sum_of(d: &Vec<u8>, parity: usize) -> (r: u64)
    requires
        parity < 2,
    ensures
        r < 11,
        r as int == parity_sum(d@.map_values(|b: u8| b as int), parity as int),
{
    let ghost ds = d@.map_values(|b: u8| b as int);
    let mut s: u64 = 0;
    let mut i: usize = 0;
    while i < d.len()
        invariant
            i <= d@.len(),
            parity < 2,
            ds == d@.map_values(|b: u8| b as int),
            s < 11,
            s as int == parity_sum(ds.take(i as int), parity as int),
        decreases d.len() - i,
    {
        proof {
            assert(ds.take(i + 1).drop_last() =~= ds.take(i as int));
        }
        if i % 2 == parity {
            s = (s + d[i] as u64) % 11;
        }
        i += 1;
    }
    proof {
        assert(ds.take(d@.len() as int) =~= ds);
    }
    s
}

/// The five-letter checksum of `shard.realm.num` on the given ledger.
pub fn checksum_for(shard: u64, realm: u64, num: u64, ledger: &LedgerId) -> (r: [u8; 5])
    ensures
        r@ == checksum_of(shard, realm, num, ledger@),
{
    let mut d: Vec<u8> = Vec::new();
    proof {
        assert(d@.map_values(|b: u8| b as int) =~= Seq::<int>::empty());
    }
    push_digits(shard, &mut d);
    let ghost d1 = d@;
    d.push(10);
    proof {
        assert(d@.map_values(|b: u8| b as int) =~= d1.map_values(|b: u8| b as int).push(10));
    }
    push_digits(realm, &mut d);
    let ghost d2 = d@;
    d.push(10);
    proof {
        assert(d@.map_values(|b: u8| b as int) =~= d2.map_values(|b: u8| b as int).push(10));
    }
    push_digits(num, &mut d);
    let ghost ds = d@.map_values(|b: u8| b as int);
    proof {
        assert(ds =~= address_digits(shard, realm, num));
    }
    let mut h: Vec<u8> = Vec::new();
    let mut i: usize = 0;
    while i < ledger.bytes.len()
        invariant
            i <= ledger@.len(),
            h@ == ledger@.take(i as int),
        decreases ledger.bytes.len() - i,
    {
        h.push(ledger.bytes[i]);
        proof {
            assert(ledger@.take(i + 1) =~= ledger@.take(i as int).push(ledger@[i as int]));
        }
        i += 1;
    }
    let mut z: usize = 0;
    while z < 6
        invariant
            z <= 6,
            h@ == ledger@ + Seq::new(z as nat, |k: int| 0u8),
        decreases 6 - z,
    {
        h.push(0);
        proof {
            assert(ledger@ + Seq::new((z + 1) as nat, |k: int| 0u8) =~= (ledger@ + Seq::new(
                z as nat,
                |k: int| 0u8,
            )).push(0u8));
        }
        z += 1;
    }
    proof {
        assert(ledger@.take(ledger@.len() as int) =~= ledger@);
        assert(h@.map_values(|b: u8| b as int) =~= salted(ledger@));
    }
    let s = weighted_sum_of(&d, THREE_LETTER_MOD);
    let s0 = parity_sum_of(&d, 0);
    let s1 = parity_sum_of(&d, 1);
    let sh = weighted_sum_of(&h, FIVE_LETTER_MOD);
    let len5 = (d.len() % 5) as u64;
    let c = ((((len5 * 11 + s0) * 11 + s1) * THREE_LETTER_MOD + s + sh) % FIVE_LETTER_MOD);
    let c = (c * SCRAMBLE) % FIVE_LETTER_MOD;
    [
        (97 + (c / 456976) % 26) as u8,
        (97 + (c / 17576) % 26) as u8,
        (97 + (c / 676) % 26) as u8,
        (97 + (c / 26) % 26) as u8,
        (97 + c % 26) as u8,
    ]
}

/// `err` reports that `id` carries a checksum other than the one computed
/// for `ledger`.
pub open spec fn is_checksum_error(err: Error, id: EntityId, ledger: Seq<u8>) -> bool {
    &&& err matches Error::BadEntityId { shard, realm, num, present_checksum, expected_checksum }
    &&& shard == id.shard && realm == id.realm && num == id.num
    &&& id.checksum == Some(present_checksum)
    &&& expected_checksum@ == checksum_of(id.shard, id.realm, id.num, ledger)
}

impl EntityId {
    /// The entity `0.0.num`, without a checksum.
    pub fn from_num(num: u64) -> (r: Self)
        ensures
            r == (EntityId { shard: 0, realm: 0, num, checksum: None }),
    {
        EntityId { shard: 0, realm: 0, num, checksum: None }
    }

    /// Checks the embedded checksum, if any, against the one computed for
    /// `ledger`; a reference without a checksum always passes.
    pub fn validate_checksum(&self, ledger: &LedgerId) -> (r: Result<(), Error>)
        ensures
            r is Ok <==> checksum_valid(*self, ledger@),
            r matches Err(e) ==> is_checksum_error(e, *self, ledger@),
    {
        match self.checksum {
            None => Ok(()),
            Some(c) => {
                let e = checksum_for(self.shard, self.realm, self.num, ledger);
                if c[0] == e[0] && c[1] == e[1] && c[2] == e[2] && c[3] == e[3] && c[4] == e[4] {
                    proof {
                        assert(c@ =~= e@);
                    }
                    Ok(())
                } else {
                    Err(
                        Error::BadEntityId {
                            shard: self.shard,
                            realm: self.realm,
                            num: self.num,
                            present_checksum: c,
                            expected_checksum: e,
                        },
                    )
                }
            },
        }
    }
}

/// Checks an optional entity reference; an absent one passes.
pub fn validate_optional_checksum(id: &Option<EntityId>, ledger: &LedgerId) -> (r: Result<
    (),
    Error,
>)
    ensures
        r is Ok <==> (*id matches Some(e) ==> checksum_valid(e, ledger@)),
        r matches Err(err) ==> (*id matches Some(e) && is_checksum_error(err, e, ledger@)),
{
    match id {
        None => Ok(()),
        Some(e) => e.validate_checksum(ledger),
    }
}

/// An entity carrying the checksum computed for a ledger passes validation
/// on that ledger, and changing any one letter of that checksum makes it fail.
pub proof fn lemma_checksum_detects_single_change(
    id: EntityId,
    ledger: Seq<u8>,
    i: int,
    letter: u8,
)
    requires
        id.checksum matches Some(c) && c@ == checksum_of(id.shard, id.realm, id.num, ledger),
        0 <= i < 5,
        letter != checksum_of(id.shard, id.realm, id.num, ledger)[i],
    ensures
        checksum_valid(id, ledger),
        forall|changed: [u8; 5]|
            changed@ == id.checksum->Some_0@.update(i, letter) ==> !checksum_valid(
                EntityId { checksum: Some(changed), ..id },
                ledger,
            ),
{
    assert forall|changed: [u8; 5]|
        changed@ == id.checksum->Some_0@.update(i, letter) implies !checksum_valid(
        EntityId { checksum: Some(changed), ..id },
        ledger,
    ) by {
        assert(changed@[i] == letter);
    }
}

} // verus!
