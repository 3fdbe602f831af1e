//! The rules of the coin economy: the shop's catalogue, rewards, and what a purchase, a
//! transfer or a gamble does to a balance.

use crate::chance::{random_below, random_between, random_bool};
use crate::text::same_text;
use vstd::prelude::*;

verus! {

/// An item of the shop.
#[derive(Debug, Clone, Copy, PartialEq, Eq, Structural)]
pub enum ShopItem {
    Vip,
    Color,
    Boost,
    Coins,
}

/// The item sold under an identifier.
pub open spec fn item_of(id: Seq<char>) -> Option<ShopItem> {
    if id == "vip"@ {
        Some(ShopItem::Vip)
    } else if id == "color"@ {
        Some(ShopItem::Color)
    } else if id == "boost"@ {
        Some(ShopItem::Boost)
    } else if id == "coins"@ {
        Some(ShopItem::Coins)
    } else {
        None
    }
}

impl ShopItem {
    /// The item's price in coins.
    pub open spec fn cost(self) -> int {
        match self {
            ShopItem::Vip => 10000,
            ShopItem::Color => 5000,
            ShopItem::Boost => 3000,
            ShopItem::Coins => 1000,
        }
    }

    /// The item's name.
    pub open spec fn title(self) -> Seq<char> {
        match self {
            ShopItem::Vip => "VIP Pass"@,
            ShopItem::Color => "Custom Color"@,
            ShopItem::Boost => "XP Boost x2"@,
            ShopItem::Coins => "Coin Pack"@,
        }
    }

    /// The item sold under an identifier, if there is one.
    pub fn from_id(id: &str) -> (item: Option<ShopItem>)
        ensures
            item == item_of(id@),
    {
        if same_text(id, "vip") {
            Some(ShopItem::Vip)
        } else if same_text(id, "color") {
            Some(ShopItem::Color)
        } else if same_text(id, "boost") {
            Some(ShopItem::Boost)
        } else if same_text(id, "coins") {
            Some(ShopItem::Coins)
        } else {
            None
        }
    }

    pub fn price(self) -> (price: i64)
        ensures
            price == self.cost(),
    {
        match self {
            ShopItem::Vip => 10000,
            ShopItem::Color => 5000,
            ShopItem::Boost => 3000,
            ShopItem::Coins => 1000,
        }
    }

    pub fn name(self) -> (name: &'static str)
        ensures
            name@ == self.title(),
    {
        match self {
            ShopItem::Vip => "VIP Pass",
            ShopItem::Color => "Custom Color",
            ShopItem::Boost => "XP Boost x2",
            ShopItem::Coins => "Coin Pack",
        }
    }
}

/// Why a purchase is refused.
#[derive(Debug, Clone, Copy, PartialEq, Eq, Structural)]
pub enum PurchaseError {
    /// The shop sells nothing under the identifier.
    UnknownItem,
    /// The buyer has fewer coins than the item costs.
    NotEnoughCoins { price: i64 },
}

/// A purchase that goes through.
#[derive(Debug, Clone, Copy, PartialEq, Eq, Structural)]
pub struct Purchase {
    pub item: ShopItem,
    pub price: i64,
    /// The buyer's coins after the purchase.
    pub remaining: i64,
}

/// What becomes of an order: the shop must sell the item, and the buyer must have its price.
pub open spec fn purchase_of(coins: i64, id: Seq<char>) -> Result<Purchase, PurchaseError> {
    match item_of(id) {
        None => Err(PurchaseError::UnknownItem),
        Some(item) => if coins < item.cost() {
            Err(PurchaseError::NotEnoughCoins { price: item.cost() as i64 })
        } else {
            Ok(Purchase { item, price: item.cost() as i64, remaining: (coins - item.cost()) as i64 })
        },
    }
}

/// Decides an order of the item sold under `item_id` by a buyer with `coins`.
pub fn plan_purchase(coins: i64, item_id: &str) -> (outcome: Result<Purchase, PurchaseError>)
    ensures
        outcome == purchase_of(coins, item_id@),
{
    match ShopItem::from_id(item_id) {
        None => Err(PurchaseError::UnknownItem),
        Some(item) => {
            let price = item.price();
            if coins < price {
                Err(PurchaseError::NotEnoughCoins { price })
            } else {
                Ok(Purchase { item, price, remaining: coins - price })
            }
        },
    }
}

/// The number an inventory holds of an item after one more was bought: one more than it
/// held, counting from zero. None where that number does not fit.
pub fn next_quantity(held: Option<i64>) -> (next: Option<i64>)
    ensures
        next == match held {
            None => Some(1i64),
            Some(n) => if n < i64::MAX {
                Some((n + 1) as i64)
            } else {
                None
            },
        },
{
    match held {
        None => Some(1),
        Some(n) => if n < i64::MAX {
            Some(n + 1)
        } else {
            None
        },
    }
}

/// The daily reward before any bonus.
pub const DAILY_BASE: i64 = 500;

/// The most a streak adds to the daily reward.
pub const STREAK_CAP: i64 = 500;

/// A daily reward.
#[derive(Debug, Clone, Copy, PartialEq, Eq, Structural)]
pub struct DailyReward {
    /// The coins paid out.
    pub total: i64,
    /// The part of them that the streak earned.
    pub streak_bonus: i64,
}

/// What a streak of `streak` days adds: fifty coins a day, five hundred at most.
pub open spec fn streak_bonus_of(streak: int) -> int {
    if streak * 50 < 500 {
        streak * 50
    } else {
        500
    }
}

/// The daily reward of a member with the streak on record, or with no record. None where
/// the bonus of a recorded streak does not fit in 64 bits.
pub fn daily_reward(streak: Option<i64>) -> (reward: Option<DailyReward>)
    ensures
        reward == match streak {
            None => Some(DailyReward { total: 500, streak_bonus: 0 }),
            Some(days) => if streak_bonus_of(days as int) >= i64::MIN {
                Some(
                    DailyReward {
                        total: (500 + streak_bonus_of(days as int)) as i64,
                        streak_bonus: streak_bonus_of(days as int) as i64,
                    },
                )
            } else {
                None
            },
        },
{
    match streak {
        None => Some(DailyReward { total: DAILY_BASE, streak_bonus: 0 }),
        Some(days) => {
            if days >= 10 {
                Some(DailyReward { total: DAILY_BASE + STREAK_CAP, streak_bonus: STREAK_CAP })
            } else if days >= i64::MIN / 50 {
                let bonus: i64 = days * 50;
                Some(DailyReward { total: DAILY_BASE + bonus, streak_bonus: bonus })
            } else {
                None
            }
        },
    }
}

/// Why a transfer is refused.
#[derive(Debug, Clone, Copy, PartialEq, Eq, Structural)]
pub enum TransferError {
    ReceiverIsBot,
    SameUser,
    NonPositiveAmount,
    NotEnoughCoins { balance: i64 },
}

/// What a transfer must meet before any balance is read: the receiver is no bot and not the
/// sender, and the amount is positive. The first rule that fails names the refusal.
pub open spec fn transfer_refusal(
    receiver_is_bot: bool,
    sender_id: u64,
    receiver_id: u64,
    amount: i64,
) -> Option<TransferError> {
    if receiver_is_bot {
        Some(TransferError::ReceiverIsBot)
    } else if receiver_id == sender_id {
        Some(TransferError::SameUser)
    } else if amount <= 0 {
        Some(TransferError::NonPositiveAmount)
    } else {
        None
    }
}

/// Checks a transfer before any balance is read.
pub fn check_transfer(receiver_is_bot: bool, sender_id: u64, receiver_id: u64, amount: i64) -> (checked:
    Result<(), TransferError>)
    ensures
        checked == match transfer_refusal(receiver_is_bot, sender_id, receiver_id, amount) {
            Some(refusal) => Err::<(), TransferError>(refusal),
            None => Ok(()),
        },
{
    if receiver_is_bot {
        Err(TransferError::ReceiverIsBot)
    } else if receiver_id == sender_id {
        Err(TransferError::SameUser)
    } else if amount <= 0 {
        Err(TransferError::NonPositiveAmount)
    } else {
        Ok(())
    }
}

/// The sender's coins after a transfer of `amount`, which must be positive and within the
/// sender's balance.
pub fn settle_transfer(sender_coins: i64, amount: i64) -> (settled: Result<i64, TransferError>)
    ensures
        settled == if amount <= 0 {
            Err::<i64, TransferError>(TransferError::NonPositiveAmount)
        } else if sender_coins < amount {
            Err(TransferError::NotEnoughCoins { balance: sender_coins })
        } else {
            Ok((sender_coins - amount) as i64)
        },
{
    if amount <= 0 {
        Err(TransferError::NonPositiveAmount)
    } else if sender_coins < amount {
        Err(TransferError::NotEnoughCoins { balance: sender_coins })
    } else {
        Ok(sender_coins - amount)
    }
}

/// Why a gamble is refused.
#[derive(Debug, Clone, Copy, PartialEq, Eq, Structural)]
pub enum GambleError {
    NonPositiveAmount,
    NotEnoughCoins { balance: i64 },
    /// The balance after a win would not fit in 64 bits.
    BalanceTooLarge,
}

/// A gamble that was played.
#[derive(Debug, Clone, Copy, PartialEq, Eq, Structural)]
pub struct Gamble {
    pub won: bool,
    /// The player's coins after the gamble: the stake more after a win, the stake less after
    /// a loss.
    pub new_balance: i64,
}

/// Checks a stake before any balance is read: it must be positive.
pub fn check_stake(amount: i64) -> (checked: Result<(), GambleError>)
    ensures
        checked == if amount <= 0 {
            Err::<(), GambleError>(GambleError::NonPositiveAmount)
        } else {
            Ok(())
        },
{
    if amount <= 0 {
        Err(GambleError::NonPositiveAmount)
    } else {
        Ok(())
    }
}

/// What a gamble of `amount` does to a balance of `coins`, given how the draw fell.
pub open spec fn gamble_of(coins: i64, amount: i64, won: bool) -> Result<Gamble, GambleError> {
    if amount <= 0 {
        Err(GambleError::NonPositiveAmount)
    } else if coins < amount {
        Err(GambleError::NotEnoughCoins { balance: coins })
    } else if won {
        if coins + amount > i64::MAX {
            Err(GambleError::BalanceTooLarge)
        } else {
            Ok(Gamble { won, new_balance: (coins + amount) as i64 })
        }
    } else {
        Ok(Gamble { won, new_balance: (coins - amount) as i64 })
    }
}

/// Settles a gamble whose draw is known.
pub fn settle_gamble(coins: i64, amount: i64, won: bool) -> (settled: Result<Gamble, GambleError>)
    ensures
        settled == gamble_of(coins, amount, won),
{
    if amount <= 0 {
        Err(GambleError::NonPositiveAmount)
    } else if coins < amount {
        Err(GambleError::NotEnoughCoins { balance: coins })
    } else if won {
        if coins > i64::MAX - amount {
            Err(GambleError::BalanceTooLarge)
        } else {
            Ok(Gamble { won, new_balance: coins + amount })
        }
    } else {
        Ok(Gamble { won, new_balance: coins - amount })
    }
}

/// Plays a gamble: draws, and settles by the draw. A stake that is not positive or beyond
/// the balance is refused whatever the draw.
pub fn gamble(coins: i64, amount: i64) -> (played: Result<Gamble, GambleError>)
    ensures
        played == gamble_of(coins, amount, true) || played == gamble_of(coins, amount, false),
        amount <= 0 ==> played == Err::<Gamble, GambleError>(GambleError::NonPositiveAmount),
        0 < amount && coins < amount ==> played == Err::<Gamble, GambleError>(
            GambleError::NotEnoughCoins { balance: coins },
        ),
        played matches Ok(g) ==> g.new_balance == if g.won {
            coins + amount
        } else {
            coins - amount
        },
{
    let won = random_bool();
    settle_gamble(coins, amount, won)
}

/// The number of jobs a member may be given.
pub const JOBS: usize = 10;

/// The least and the most a shift pays.
pub const LEAST_PAY: i32 = 100;

pub const MOST_PAY: i32 = 500;

/// A shift worked.
#[derive(Debug, Clone, Copy, PartialEq, Eq)]
pub struct Shift {
    /// The job, by its place in the list of jobs.
    pub job: usize,
    /// The coins earned.
    pub earned: i32,
}

/// The names of the jobs, in the order of the list.
pub open spec fn job_names() -> Seq<Seq<char>> {
    seq![
        "developer"@,
        "doctor"@,
        "lawyer"@,
        "teacher"@,
        "engineer"@,
        "artist"@,
        "musician"@,
        "chef"@,
        "architect"@,
        "scientist"@,
    ]
}

/// The name of the job at a place in the list; none beyond its end.
pub fn job_title(job: usize) -> (title: Option<&'static str>)
    ensures
        title is Some <==> job < JOBS,
        title matches Some(name) ==> name@ == job_names()[job as int],
{
    if job == 0 {
        Some("developer")
    } else if job == 1 {
        Some("doctor")
    } else if job == 2 {
        Some("lawyer")
    } else if job == 3 {
        Some("teacher")
    } else if job == 4 {
        Some("engineer")
    } else if job == 5 {
        Some("artist")
    } else if job == 6 {
        Some("musician")
    } else if job == 7 {
        Some("chef")
    } else if job == 8 {
        Some("architect")
    } else if job == 9 {
        Some("scientist")
    } else {
        None
    }
}

/// Draws a shift: one of the jobs, and a pay between the least and the most.
pub fn work_shift() -> (shift: Shift)
    ensures
        shift.job < JOBS,
        LEAST_PAY <= shift.earned <= MOST_PAY,
{
    let job = random_below(JOBS);
    let earned = random_between(LEAST_PAY, MOST_PAY);
    Shift { job, earned }
}

} // verus!
