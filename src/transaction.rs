//! Transaction records: plain aggregates of fixed-width fields, scripts and
//! CompactSize counts.

use crate::script::encode_terms;
use crate::script::Script;
use crate::script::ScriptError;
use crate::utils::CompactBytes;
use vstd::prelude::*;

verus! {

/// An input: the output it spends and the script that unlocks it.
#[derive(Debug)]
pub struct TransactionInput {
    /// The TXID of the transaction that holds the output to spend.
    pub txid: [u8; 32],
    /// The index of the output to spend.
    pub vout: [u8; 4],
    /// The size in bytes of the script that follows.
    pub script_sig_size: CompactBytes,
    /// The unlocking script.
    pub script_sig: Script,
    /// When the transaction can be replaced or mined.
    pub sequence: [u8; 4],
}

/// An output: an amount and the script that locks it.
#[derive(Debug)]
pub struct TransactionOutput {
    /// The value of the output in satoshis.
    pub amount: u64,
    /// The size in bytes of the script that follows.
    pub script_sig_size: u8,
    /// The locking script.
    pub script_sig: Script,
}

/// An item of a witness stack.
#[derive(Debug)]
pub struct StackItem {
    /// The size of the item.
    pub size: CompactBytes,
    /// The bytes pushed on the stack.
    pub item: Vec<u8>,
}

/// A transaction.
#[derive(Debug)]
pub struct Transaction {
    /// The version number of the transaction.
    pub version: [u8; 4],
    /// The number of inputs.
    pub input_count: CompactBytes,
    /// The outputs.
    pub outputs: Vec<TransactionOutput>,
    /// A time or height after which the transaction can be mined.
    pub lock_time: [u8; 4],
}

/// Appends the bytes of `src` to `out`.
fn append_bytes(out: &mut Vec<u8>, src: &[u8])
    ensures
        final(out)@ == old(out)@ + src@,
{
    let mut i: usize = 0;
    while i < src.len()
        invariant
            i <= src@.len(),
            out@ == old(out)@ + src@.take(i as int),
        decreases src@.len() - i,
    {
        out.push(src[i]);
        i = i + 1;
        assert(out@ =~= old(out)@ + src@.take(i as int));
    }
    assert(src@.take(i as int) =~= src@);
}

impl TransactionInput {
    /// The bytes of the input: the TXID, the output index, the script size
    /// field and the script. Fails where the script cannot be encoded.
    pub fn to_bytes(&self) -> (r: Result<Vec<u8>, ScriptError>)
        ensures
            match r {
                Ok(b) => encode_terms(self.script_sig@) matches Ok(script) && b@ == self.txid@
                    + self.vout@ + self.script_sig_size.spec_bytes() + script,
                Err(e) => encode_terms(self.script_sig@) == Err::<Seq<u8>, ScriptError>(e),
            },
    {
        let script = match self.script_sig.to_bytes() {
            Ok(b) => b,
            Err(e) => {
                return Err(e);
            },
        };
        let mut out: Vec<u8> = Vec::new();
        append_bytes(&mut out, &self.txid);
        append_bytes(&mut out, &self.vout);
        let size = self.script_sig_size.to_bytes();
        append_bytes(&mut out, size.as_slice());
        append_bytes(&mut out, script.as_slice());
        assert(out@ =~= self.txid@ + self.vout@ + self.script_sig_size.spec_bytes() + script@);
        Ok(out)
    }
}

} // verus!
