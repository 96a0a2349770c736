//! Program constants: the mining schedule, the token's units, the reward
//! budget per epoch, account seeds and the fixed account addresses.

use vstd::arithmetic::power::pow;
use vstd::prelude::*;

verus! {

/// The unix timestamp after which mining can begin
/// (Tuesday, April 23, 2024 2:00:00 PM GMT).
pub const START_AT: i64 = 1713880800;

/// The unix timestamp after which mining will stop
/// (Monday, April 23, 2029 2:00:00 PM GMT).
pub const END_AT: i64 = 1871647200;

/// The reward rate to initialize the program with: ten thousand.
pub const INITIAL_REWARD_RATE: u64 = 10000;

/// The mining difficulty to initialize the program with: a hash must have
/// its first three bytes zero.
pub const INITIAL_DIFFICULTY: [u8; 32] = [
    0, 0, 0, 255, 255, 255, 255, 255, 255, 255, 255, 255, 255, 255, 255, 255, 255, 255, 255, 255,
    255, 255, 255, 255, 255, 255, 255, 255, 255, 255, 255, 255,
];

/// The decimal precision of the MARS token.
/// The smallest indivisible unit of MARS is a miraMARS.
/// 1 miraMARS = 0.00000001 MARS
pub const TOKEN_DECIMALS: u8 = 8;

/// One MARS token, denominated in units of miraMARS: ten to the power of
/// `TOKEN_DECIMALS`.
pub const ONE_MARS: u64 = 100000000;

/// Ten MARS tokens.
pub const TEN_MARS: u64 = ONE_MARS * 10;

/// The duration of an epoch, in units of seconds.
pub const EPOCH_DURATION: i64 = 60;

/// The target quantity of MARS to be mined per epoch, in units of miraMARS.
/// Inflation rate ≈ 10 MARS / epoch (min 0, max 20)
pub const TARGET_EPOCH_REWARDS: u64 = TEN_MARS;

/// The maximum quantity of MARS that can be mined per epoch, in units of miraMARS.
pub const MAX_EPOCH_REWARDS: u64 = TEN_MARS * 2;

/// The number of bus accounts, for parallelizing mine operations.
pub const BUS_COUNT: usize = 8;

/// The quantity of MARS each bus is allowed to issue per epoch.
pub const BUS_EPOCH_REWARDS: u64 = MAX_EPOCH_REWARDS / (BUS_COUNT as u64);

/// The smoothing factor for reward rate changes. The reward rate cannot change
/// by more or less than a factor of this constant from one epoch to the next.
pub const SMOOTHING_FACTOR: u64 = 2;

/// The seed of the bus account PDA.
pub const BUS: [u8; 3] = [98, 117, 115];

/// The seed of the metadata account PDA.
pub const METADATA: [u8; 8] = [109, 101, 116, 97, 100, 97, 116, 97];

/// The seed of the mint account PDA.
pub const MINT: [u8; 4] = [109, 105, 110, 116];

/// The seed of proof account PDAs.
pub const PROOF: [u8; 5] = [112, 114, 111, 111, 102];

/// The seed of the treasury account PDA.
pub const TREASURY: [u8; 8] = [116, 114, 101, 97, 115, 117, 114, 121];

/// The name for token metadata.
pub const METADATA_NAME: &'static str = "Mars";

/// The ticker symbol for token metadata.
pub const METADATA_SYMBOL: &'static str = "MARS";

/// The uri for token metadata.
pub const METADATA_URI: &'static str = "https://github.com/miraland-labs/resources/blob/main/metadata/mars.json";

/// Noise for deriving the mint PDA ("ExtremeWayOnMars").
pub const MINT_NOISE: [u8; 16] = [
    105, 170, 164, 162, 145, 155, 145, 127, 141, 171, 117, 156, 115, 141, 162, 163,
];

/// The addresses of the bus accounts, as the 32 bytes of each public key.
pub const BUS_ADDRESSES: [[u8; 32]; BUS_COUNT] = [
    // 6ZcZsUKTv19iFXSnpqjPXzE7joCsEeNpTC5oArFPXzQG
    [
        82, 165, 60, 103, 40, 62, 252, 213, 57, 9, 158, 59, 119, 55, 245, 220,
        139, 31, 226, 8, 180, 23, 32, 196, 164, 253, 215, 115, 7, 158, 35, 217,
    ],
    // 5jNbJehucBoCov1RkyHJQfMNrjSFG7LYZF79hvjDp4u5
    [
        70, 73, 142, 34, 247, 77, 59, 124, 12, 74, 204, 143, 186, 234, 103, 88,
        122, 234, 78, 150, 89, 212, 16, 56, 134, 89, 118, 248, 104, 76, 68, 208,
    ],
    // Ctsj8HbZFe8oqbx3GRfxgz9g1RyTKHeh92UcsabUK6so
    [
        176, 186, 136, 171, 135, 70, 97, 45, 237, 118, 37, 161, 159, 248, 145, 139,
        76, 138, 53, 208, 182, 18, 183, 121, 205, 29, 38, 159, 19, 140, 228, 54,
    ],
    // HKo6bDCzHyfYtBtbYeDXs1x3yvDzBWU5EpxhjBWxJB97
    [
        242, 139, 145, 20, 211, 135, 206, 54, 237, 139, 101, 152, 238, 247, 69, 50,
        251, 23, 224, 57, 107, 142, 145, 244, 235, 42, 218, 198, 90, 73, 188, 246,
    ],
    // 82BDDgQnQeFLjyP1mSpPHRPJdEGkiiZtBqEvjFxYL44W
    [
        104, 78, 239, 61, 92, 252, 193, 235, 183, 69, 62, 237, 30, 124, 244, 208,
        169, 104, 121, 128, 124, 189, 141, 120, 0, 4, 54, 210, 177, 236, 10, 255,
    ],
    // CqacmEv1yENenKrZBUPV8LQZrje8ZiBdr8Y3MsEaS3QQ
    [
        175, 226, 114, 8, 14, 135, 87, 208, 38, 101, 33, 123, 237, 249, 71, 53,
        71, 71, 237, 190, 93, 64, 227, 218, 198, 30, 251, 225, 97, 51, 76, 45,
    ],
    // Gw4ZkcJkiiLWbqR1qnu2YHg4TsfaEbgUE2Ky721cY1Rv
    [
        236, 184, 178, 188, 154, 18, 126, 77, 249, 244, 184, 24, 193, 220, 69, 90,
        34, 57, 136, 246, 231, 95, 9, 254, 171, 230, 185, 87, 90, 206, 166, 237,
    ],
    // DkwXmEda41smeoQiztKopXMQjMW5QYLggddqLUz1Hpck
    [
        189, 141, 224, 40, 95, 30, 66, 164, 87, 134, 107, 131, 85, 234, 188, 164,
        23, 226, 194, 232, 188, 127, 59, 207, 134, 63, 227, 86, 109, 104, 197, 21,
    ],
];

/// The address of the mint metadata account (CC8Awvao6Ls5VjREyH78DGPh3SmdjdDZJxTmfsqZmsbJ), as the 32 bytes of its public key.
pub const METADATA_ADDRESS: [u8; 32] = [
    166, 74, 13, 206, 89, 48, 147, 219, 96, 71, 190, 171, 174, 127, 254, 30,
    211, 17, 219, 187, 21, 251, 60, 183, 233, 131, 163, 14, 93, 215, 131, 45,
];

/// The address of the mint account (7RAV5UPRTzxn46kLeA8MiJsdNy9VKc5fip8FWEgTpTHh), as the 32 bytes of its public key.
pub const MINT_ADDRESS: [u8; 32] = [
    95, 86, 200, 224, 8, 40, 224, 169, 246, 203, 46, 31, 153, 35, 168, 188,
    213, 23, 130, 132, 234, 192, 15, 106, 156, 225, 208, 154, 255, 110, 143, 136,
];

/// The address of the treasury account (Dk13Cdjnjz2pxbsXbvzJiA2bUSMdsHU7Vf2G8yRGQvwC), as the 32 bytes of its public key.
pub const TREASURY_ADDRESS: [u8; 32] = [
    189, 80, 66, 196, 54, 3, 172, 241, 169, 101, 60, 166, 165, 232, 114, 222,
    222, 39, 253, 12, 111, 222, 183, 75, 153, 193, 82, 93, 3, 57, 81, 195,
];

/// One MARS is ten to the power of the token's decimals, in miraMARS.
pub proof fn lemma_one_mars_is_ten_to_the_decimals()
    ensures
        ONE_MARS == pow(10, TOKEN_DECIMALS as nat),
{
    reveal_with_fuel(pow, 9);
}

/// The initial reward rate is ten times ten to the power of three.
pub proof fn lemma_initial_reward_rate()
    ensures
        INITIAL_REWARD_RATE == 10 * pow(10, 3),
{
    reveal_with_fuel(pow, 4);
}

/// Each epoch aims at ten MARS of rewards, and never issues more than twice that.
pub proof fn lemma_epoch_reward_budget()
    ensures
        TARGET_EPOCH_REWARDS == 10 * ONE_MARS,
        MAX_EPOCH_REWARDS == 2 * TARGET_EPOCH_REWARDS,
        MAX_EPOCH_REWARDS == 20 * ONE_MARS,
{
}

/// The epoch's maximum rewards split evenly amongst the busses: each bus may
/// issue two and a half MARS per epoch, and the busses together issue exactly
/// the maximum.
pub proof fn lemma_bus_rewards_split_evenly()
    ensures
        BUS_EPOCH_REWARDS * (BUS_COUNT as u64) == MAX_EPOCH_REWARDS,
        (MAX_EPOCH_REWARDS / (BUS_COUNT as u64)) * (BUS_COUNT as u64) == MAX_EPOCH_REWARDS,
        2 * BUS_EPOCH_REWARDS == 5 * ONE_MARS,
{
}

/// Mining runs for five years, from April 23, 2024 to April 23, 2029, that
/// is 1826 days (one of the years is a leap year); an epoch is a minute.
pub proof fn lemma_mining_schedule()
    ensures
        START_AT < END_AT,
        END_AT - START_AT == 1826 * 24 * 60 * 60,
        EPOCH_DURATION == 60,
{
}

} // verus!
