use vstd::prelude::*;
use vstd::bytes::{spec_u64_from_le_bytes, spec_u64_to_le_bytes, u64_from_le_bytes, u64_to_le_bytes};
use vstd::bytes::lemma_auto_spec_u64_to_from_le_bytes;
use vstd::slice::slice_subrange;
use crate::constants::{DISCRIMINATOR_LEN, PUBKEY_LEN, U64_LEN, U8_LEN};
use crate::errors::PixelMarketErrorCode;
use crate::pubkey::Pubkey;

verus! {

/// The configuration record of one admin: the only thing the program stores.
#[derive(Clone, Copy, Debug, PartialEq, Eq)]
pub struct Config {
    /// The nonce that, with the namespace tag and the admin, derives the
    /// address the record is stored at.
    pub bump: [u8; 1],
    /// The identity that created the record. It never changes.
    pub admin: Pubkey,
    /// The identity that purchases pay.
    pub operator: Pubkey,
    /// What one purchase transfers.
    pub price: u64,
}

/// What a record holds, as plain values.
pub struct ConfigView {
    pub bump: u8,
    pub admin: Seq<u8>,
    pub operator: Seq<u8>,
    pub price: u64,
}

impl View for Config {
    type V = ConfigView;

    open spec fn view(&self) -> ConfigView {
        ConfigView {
            bump: self.bump[0],
            admin: self.admin@,
            operator: self.operator@,
            price: self.price,
        }
    }
}

/// The stored form of a record: the tag of its type, then bump, admin,
/// operator, and the price with its low byte first.
pub open spec fn record_bytes(record: ConfigView) -> Seq<u8> {
    Config::DISCRIMINATOR@ + seq![record.bump] + record.admin + record.operator
        + spec_u64_to_le_bytes(record.price)
}

/// The record that stored bytes hold: `None` where they are too short for a
/// record or do not begin with the tag of its type. Bytes after the record
/// are not looked at.
pub open spec fn parse_record(data: Seq<u8>) -> Option<ConfigView> {
    if data.len() >= Config::LEN && data.subrange(0, 8) == Config::DISCRIMINATOR@ {
        Some(
            ConfigView {
                bump: data[8],
                admin: data.subrange(9, 41),
                operator: data.subrange(41, 73),
                price: spec_u64_from_le_bytes(data.subrange(73, 81)),
            },
        )
    } else {
        None
    }
}

fn append(out: &mut Vec<u8>, bytes: &[u8])
    ensures
        final(out)@ == old(out)@ + bytes@,
{
    let mut i: usize = 0;
    while i < bytes.len()
        invariant
            i <= bytes.len(),
            out@ == old(out)@ + bytes@.subrange(0, i as int),
        decreases bytes.len() - i,
    {
        out.push(bytes[i]);
        i += 1;
    }
    assert(bytes@.subrange(0, bytes@.len() as int) =~= bytes@);
}

fn read_pubkey(data: &[u8], start: usize) -> (key: Pubkey)
    requires
        start + 32 <= data.len(),
    ensures
        key@ == data@.subrange(start as int, start + 32),
{
    let mut bytes: [u8; 32] = [0u8; 32];
    let mut i: usize = 0;
    while i < 32
        invariant
            i <= 32,
            start + 32 <= data.len(),
            forall|j: int| 0 <= j < i ==> bytes[j] == data[start + j],
        decreases 32 - i,
    {
        bytes[i] = data[start + i];
        i += 1;
    }
    assert(bytes@ =~= data@.subrange(start as int, start + 32));
    Pubkey { bytes }
}

impl Config {
    /// The tag that marks stored bytes as a configuration record: the first
    /// eight bytes of the SHA-256 digest of `account:Config`.
    pub const DISCRIMINATOR: [u8; 8] = [155, 12, 170, 224, 30, 250, 204, 130];

    /// Length in bytes of a stored record.
    pub const LEN: usize = DISCRIMINATOR_LEN + U8_LEN + PUBKEY_LEN + PUBKEY_LEN + U64_LEN;

    /// The record of a freshly allocated account: every byte zero.
    pub fn zeroed() -> (record: Config)
        ensures
            record@ == (ConfigView {
                bump: 0,
                admin: Seq::new(32, |i: int| 0u8),
                operator: Seq::new(32, |i: int| 0u8),
                price: 0,
            }),
    {
        let record = Config {
            bump: [0u8; 1],
            admin: Pubkey { bytes: [0u8; 32] },
            operator: Pubkey { bytes: [0u8; 32] },
            price: 0,
        };
        assert(record.admin@ =~= Seq::new(32, |i: int| 0u8));
        assert(record.operator@ =~= Seq::new(32, |i: int| 0u8));
        record
    }

    /// Sets every field of the record.
    pub fn init(&mut self, bump: u8, admin: Pubkey, operator: Pubkey, price: u64) -> (res: Result<
        (),
        PixelMarketErrorCode,
    >)
        ensures
            res == Ok::<(), PixelMarketErrorCode>(()),
            *final(self) == (Config { bump: [bump], admin, operator, price }),
    {
        self.bump = [bump];
        self.admin = admin;
        self.operator = operator;
        self.price = price;
        Ok(())
    }

    /// Replaces the operator and nothing else.
    pub fn change_operator(&mut self, operator: Pubkey) -> (res: Result<(), PixelMarketErrorCode>)
        ensures
            res == Ok::<(), PixelMarketErrorCode>(()),
            *final(self) == (Config { operator, ..*old(self) }),
    {
        self.operator = operator;
        Ok(())
    }

    /// Replaces the price and nothing else. Every price is accepted.
    pub fn update_price(&mut self, price: u64) -> (res: Result<(), PixelMarketErrorCode>)
        ensures
            res == Ok::<(), PixelMarketErrorCode>(()),
            *final(self) == (Config { price, ..*old(self) }),
    {
        self.price = price;
        Ok(())
    }

    /// The stored form of the record.
    pub fn try_serialize(&self) -> (out: Vec<u8>)
        ensures
            out@ == record_bytes(self@),
            out@.len() == Config::LEN,
    {
        let mut out: Vec<u8> = Vec::new();
        append(&mut out, Config::DISCRIMINATOR.as_slice());
        append(&mut out, self.bump.as_slice());
        append(&mut out, self.admin.bytes.as_slice());
        append(&mut out, self.operator.bytes.as_slice());
        let price = u64_to_le_bytes(self.price);
        append(&mut out, price.as_slice());
        assert(self.bump@ =~= seq![self.bump[0]]);
        out
    }

    /// Reads a record back from its stored form.
    pub fn try_deserialize(data: &[u8]) -> (res: Option<Config>)
        ensures
            match res {
                Some(record) => parse_record(data@) == Some(record@),
                None => parse_record(data@) is None,
            },
    {
        if data.len() < Config::LEN {
            return None;
        }
        let mut i: usize = 0;
        while i < 8
            invariant
                i <= 8,
                data.len() >= Config::LEN,
                forall|j: int| 0 <= j < i ==> data[j] == Config::DISCRIMINATOR[j],
            decreases 8 - i,
        {
            if data[i] != Config::DISCRIMINATOR[i] {
                assert(data@.subrange(0, 8)[i as int] != Config::DISCRIMINATOR@[i as int]);
                return None;
            }
            i += 1;
        }
        assert(data@.subrange(0, 8) =~= Config::DISCRIMINATOR@);
        let bump = data[8];
        let admin = read_pubkey(data, 9);
        let operator = read_pubkey(data, 41);
        let price = u64_from_le_bytes(slice_subrange(data, 73, 81));
        Some(Config { bump: [bump], admin, operator, price })
    }

    /// Two records that hold the same values are the same record.
    pub proof fn lemma_view_injective(a: Config, b: Config)
        ensures
            a@ == b@ <==> a == b,
    {
        if a@ == b@ {
            Pubkey::lemma_view_injective(a.admin, b.admin);
            Pubkey::lemma_view_injective(a.operator, b.operator);
            assert(a.bump@ =~= b.bump@);
            assert(a.bump == b.bump);
        }
    }

    /// Round trip: a record read back from its stored form holds the values
    /// that were stored. Bump, admin, operator and price come back unchanged,
    /// so the record read back is the record stored.
    pub proof fn lemma_round_trip(record: Config)
        ensures
            parse_record(record_bytes(record@)) == Some(record@),
            forall|reloaded: Config|
                parse_record(record_bytes(record@)) == Some(reloaded@) ==> reloaded == record,
    {
        lemma_auto_spec_u64_to_from_le_bytes();
        let data = record_bytes(record@);
        assert(data.len() == 81);
        assert(data.subrange(0, 8) =~= Config::DISCRIMINATOR@);
        assert(data.subrange(9, 41) =~= record.admin@);
        assert(data.subrange(41, 73) =~= record.operator@);
        assert(data.subrange(73, 81) =~= spec_u64_to_le_bytes(record.price));
        assert forall|reloaded: Config|
            parse_record(record_bytes(record@)) == Some(reloaded@) implies reloaded == record by {
            Config::lemma_view_injective(reloaded, record);
        }
    }

    /// The stored form of a record is fixed by its values: stored bytes of
    /// the length of a record that hold a record are the stored form of that
    /// record.
    pub proof fn lemma_stored_form(data: Seq<u8>)
        requires
            data.len() == Config::LEN,
            parse_record(data) is Some,
        ensures
            record_bytes(parse_record(data)->0) == data,
    {
        lemma_auto_spec_u64_to_from_le_bytes();
        let price = data.subrange(73, 81);
        assert(spec_u64_to_le_bytes(spec_u64_from_le_bytes(price)) == price);
        assert(record_bytes(parse_record(data)->0) =~= data.subrange(0, 8) + seq![data[8]]
            + data.subrange(9, 41) + data.subrange(41, 73) + price);
        assert(data =~= data.subrange(0, 8) + seq![data[8]] + data.subrange(9, 41)
            + data.subrange(41, 73) + price);
    }
}

} // verus!
