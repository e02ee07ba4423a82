//! What a wallet database decides when a block has been scanned for a
//! monitor.

use vstd::prelude::*;
use vstd::string::StringExecFns;
use crate::decimal::{decimal, decimal_string};

verus! {

/// Why the database did not take what it was given.
#[derive(Clone, Debug, PartialEq, Eq)]
pub enum Error {
    /// An argument, named first, has a value that the database cannot
    /// take; the second string says why.
    InvalidArgument(String, String),
}

/// How loudly a processed block is logged.
#[derive(Clone, Copy, Debug, PartialEq, Eq, Structural)]
pub enum LogLevel {
    Debug,
    Info,
}

/// How far the scan of the ledger for one monitor has come.
#[derive(Clone, Copy, Debug, PartialEq, Eq, Structural)]
pub struct MonitorData {
    /// The first block that was scanned.
    pub first_block: u64,
    /// The block that is scanned next.
    pub next_block: u64,
}

/// What is said of a block that came out of turn.
pub open spec fn out_of_turn_message(expected: u64, got: u64) -> Seq<char> {
    "Expected block "@ + decimal(expected as nat) + ", got block "@ + decimal(got as nat)
}

impl MonitorData {
    /// Takes note that a block was scanned.
    ///
    /// Blocks are scanned in turn: if `block_num` is not the block that is
    /// scanned next, nothing changes and the error says which block was
    /// expected. Else the next block is the one after it, which must
    /// exist. A block in which nothing was found is logged quietly.
    pub fn block_processed(
        &mut self,
        block_num: u64,
        discovered_utxos: usize,
        removed_key_images: usize,
    ) -> (r: Result<LogLevel, Error>)
        requires
            block_num == old(self).next_block ==> block_num < u64::MAX,
        ensures
            final(self).first_block == old(self).first_block,
            block_num != old(self).next_block ==> final(self).next_block == old(self).next_block
                && (r matches Err(Error::InvalidArgument(name, message)) && name@ == "block_num"@
                && message@ == out_of_turn_message(old(self).next_block, block_num)),
            block_num == old(self).next_block ==> final(self).next_block == block_num + 1 && r
                == Ok::<LogLevel, Error>(
                if discovered_utxos == 0 && removed_key_images == 0 {
                    LogLevel::Debug
                } else {
                    LogLevel::Info
                },
            ),
    {
        if block_num != self.next_block {
            let message: String = String::from_str("Expected block ").concat(
                decimal_string(self.next_block).as_str(),
            ).concat(", got block ").concat(decimal_string(block_num).as_str());
            return Err(Error::InvalidArgument(String::from_str("block_num"), message));
        }
        self.next_block = self.next_block + 1;
        if discovered_utxos == 0 && removed_key_images == 0 {
            Ok(LogLevel::Debug)
        } else {
            Ok(LogLevel::Info)
        }
    }
}

} // verus!
