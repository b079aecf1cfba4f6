use vstd::prelude::*;

verus! {

/// The marker record: its presence at the address derived from a payer and a
/// mint says that this payer has already sniped this mint.
#[derive(Clone, Copy, Debug, PartialEq, Eq, Structural)]
pub struct Snipe {
    /// The salt with which the record's address was derived.
    pub bump: u8,
}

impl Default for Snipe {
    fn default() -> (snipe: Self)
        ensures
            snipe.bump == 0,
    {
        Snipe { bump: 0 }
    }
}

impl Snipe {
    /// Bytes that the fields of a record occupy.
    pub const INIT_SPACE: usize = 1;

    /// The tag that starts the stored form of every record of this type.
    pub const DISCRIMINATOR: [u8; 8] = [248, 170, 173, 252, 72, 162, 8, 13];

    /// Bytes that the stored form of a record occupies.
    pub const SPACE: usize = 8 + Snipe::INIT_SPACE;

    /// The stored form of a record: the tag, then the bump.
    pub open spec fn account_data(self) -> Seq<u8> {
        Snipe::DISCRIMINATOR@.push(self.bump)
    }

    /// The record that stored bytes hold, if they start with the tag and a
    /// bump follows it. Bytes after the bump are not looked at.
    pub open spec fn from_account_data(data: Seq<u8>) -> Option<Snipe> {
        if data.len() >= Snipe::SPACE && data.subrange(0, 8) == Snipe::DISCRIMINATOR@ {
            Some(Snipe { bump: data[8] })
        } else {
            None
        }
    }

    /// Writes the record in its stored form.
    pub fn try_serialize(&self) -> (data: Vec<u8>)
        ensures
            data@ == self.account_data(),
            data@.len() == Snipe::SPACE,
    {
        let mut data: Vec<u8> = Vec::with_capacity(Snipe::SPACE);
        let mut i: usize = 0;
        while i < 8
            invariant
                i <= 8,
                data@ == Snipe::DISCRIMINATOR@.subrange(0, i as int),
            decreases 8 - i,
        {
            data.push(Snipe::DISCRIMINATOR[i]);
            i += 1;
        }
        data.push(self.bump);
        assert(Snipe::DISCRIMINATOR@.subrange(0, 8) =~= Snipe::DISCRIMINATOR@);
        data
    }

    /// Reads a record from its stored form.
    pub fn try_deserialize(data: &[u8]) -> (snipe: Option<Snipe>)
        ensures
            snipe == Snipe::from_account_data(data@),
    {
        if data.len() < Snipe::SPACE {
            return None;
        }
        let mut i: usize = 0;
        while i < 8
            invariant
                i <= 8,
                data@.len() >= Snipe::SPACE,
                data@.subrange(0, i as int) == Snipe::DISCRIMINATOR@.subrange(0, i as int),
            decreases 8 - i,
        {
            if data[i] != Snipe::DISCRIMINATOR[i] {
                assert(data@.subrange(0, 8)[i as int] != Snipe::DISCRIMINATOR@[i as int]);
                return None;
            }
            assert(data@.subrange(0, i + 1) =~= data@.subrange(0, i as int).push(data@[i as int]));
            assert(Snipe::DISCRIMINATOR@.subrange(0, i + 1) =~= Snipe::DISCRIMINATOR@.subrange(
                0,
                i as int,
            ).push(Snipe::DISCRIMINATOR@[i as int]));
            i += 1;
        }
        assert(Snipe::DISCRIMINATOR@.subrange(0, 8) =~= Snipe::DISCRIMINATOR@);
        Some(Snipe { bump: data[8] })
    }

    /// A record that was written is read back unchanged, whatever follows
    /// it in the account.
    pub proof fn lemma_stored_record_reads_back(self, rest: Seq<u8>)
        ensures
            Snipe::from_account_data(self.account_data() + rest) == Some(self),
            Snipe::from_account_data(self.account_data()) == Some(self),
    {
        let data = self.account_data();
        assert((data + rest).subrange(0, 8) =~= Snipe::DISCRIMINATOR@);
        assert(data.subrange(0, 8) =~= Snipe::DISCRIMINATOR@);
    }
}

} // verus!
