//! Account layouts, error codes and program constants of the Mars mining program.

pub mod consts;
pub mod error;
pub mod state;
pub mod utils;

pub use consts::{
    BUS, BUS_ADDRESSES, BUS_COUNT, BUS_EPOCH_REWARDS, END_AT, EPOCH_DURATION, INITIAL_DIFFICULTY,
    INITIAL_REWARD_RATE, MAX_EPOCH_REWARDS, METADATA, METADATA_ADDRESS, METADATA_NAME,
    METADATA_SYMBOL, METADATA_URI, MINT, MINT_ADDRESS, MINT_NOISE, ONE_MARS, PROOF,
    SMOOTHING_FACTOR, START_AT, TARGET_EPOCH_REWARDS, TEN_MARS, TOKEN_DECIMALS, TREASURY,
    TREASURY_ADDRESS,
};
pub use error::MarsError;
