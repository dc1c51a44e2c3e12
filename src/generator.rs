//! The two transaction generators: one plans "create wallet" transactions
//! over consecutive seeds, the other plans transfers between the members of
//! a fixed pool of wallets, with a pseudo-random stream choosing the parties,
//! the amount and the nonce.

use rand::Rng;
use rand::SeedableRng;
use rand_xorshift::XorShiftRng;
use vstd::prelude::*;

use crate::keys::{advance, le_bytes, seed_at, step, write_u64_le, KeypairGenerator};

verus! {

/// rand_xorshift's generator, held opaque: only the wrappers below touch it.
#[verifier::external_type_specification]
#[verifier::external_body]
pub struct ExXorShiftRng(XorShiftRng);

/// Relies on rand_xorshift's `XorShiftRng::from_seed`, which accepts every
/// seed (an all-zero one is replaced by a fixed constant).
#[verifier::external_body]
fn xorshift_from_seed(seed: [u8; 16]) -> XorShiftRng {
    XorShiftRng::from_seed(seed)
}

/// Relies on rand's `Rng::gen_range` on `low..high`: it panics only on an
/// empty range and otherwise returns a value inside it.
#[verifier::external_body]
fn gen_range_u64(rng: &mut XorShiftRng, low: u64, high: u64) -> (r: u64)
    requires
        low < high,
    ensures
        low <= r < high,
{
    rng.gen_range(low..high)
}

/// Relies on rand's `Rng::gen` for `u64`: any value may come.
#[verifier::external_body]
fn gen_u64(rng: &mut XorShiftRng) -> u64 {
    rng.gen::<u64>()
}

/// What a "create wallet" transaction is built from: the routing tag and the
/// seed of the wallet's keypair.
#[derive(Clone, Copy, Debug, PartialEq, Eq, Structural)]
pub struct WalletPlan {
    pub service_id: u32,
    pub seed: u64,
}

/// Plans one "create wallet" transaction per keypair of a seed sequence.
pub struct CreateWalletGenerator {
    service_id: u32,
    generator: KeypairGenerator,
}

impl CreateWalletGenerator {
    pub closed spec fn service(&self) -> u32 {
        self.service_id
    }

    /// The seed of the keypair that the next plan uses.
    pub closed spec fn current(&self) -> u64 {
        self.generator.current()
    }

    pub fn new(service_id: u32, seed: u64) -> (r: Self)
        ensures
            r.service() == service_id,
            r.current() == seed,
    {
        Self { service_id, generator: KeypairGenerator::new(seed) }
    }

    /// The next wallet: its keypair is the next one of the seed sequence.
    pub fn next(&mut self) -> (r: WalletPlan)
        ensures
            r.service_id == old(self).service(),
            r.seed == old(self).current(),
            final(self).service() == old(self).service(),
            final(self).current() == step(old(self).current()),
    {
        let seed = self.generator.next_seed();
        WalletPlan { service_id: self.service_id, seed }
    }
}

/// Configuration of a `TransferGenerator`.
pub struct TransferGeneratorConfig {
    pub service_id: u32,
    pub seed: u64,
    pub wallets_count: usize,
    pub wallets_seed: u64,
}

/// What a transfer transaction is built from: the pool indices of both
/// parties, the seeds of their keypairs, the amount and the nonce.
#[derive(Clone, Copy, Debug, PartialEq, Eq, Structural)]
pub struct TransferPlan {
    pub service_id: u32,
    pub sender: usize,
    pub receiver: usize,
    pub sender_seed: u64,
    pub receiver_seed: u64,
    pub amount: u64,
    pub nonce: u64,
}

/// The receiver that a draw from `0..n - 1` selects once the sender is
/// taken out of `0..n`.
pub open spec fn receiver_of(sender: int, draw: int) -> int {
    if draw >= sender {
        draw + 1
    } else {
        draw
    }
}

/// Maps a draw from `0..n - 1` one to one onto the indices of `0..n` other
/// than `sender`.
pub fn distinct_receiver(sender: usize, draw: usize) -> (r: usize)
    requires
        draw < usize::MAX,
    ensures
        r == receiver_of(sender as int, draw as int),
        r != sender,
{
    if draw >= sender {
        draw + 1
    } else {
        draw
    }
}

/// The seed of a transfer generator's pseudo-random stream: the
/// little-endian bytes of `seed`, padded with zeros to sixteen bytes.
pub fn rng_seed(seed: u64) -> (r: [u8; 16])
    ensures
        r@ == le_bytes(seed) + Seq::new(8, |i: int| 0u8),
{
    let mut buf = [0u8; 16];
    let ghost zeros = buf@;
    write_u64_le(&mut buf, seed);
    assert(zeros.subrange(8, 16) =~= Seq::new(8, |i: int| 0u8));
    buf
}

/// The transfer that the draws `sender` (from `0..n`) and `draw` (from
/// `0..n - 1`), an amount and a nonce make in the pool of `n` wallets from
/// `wallets_seed`: the receiver is the draw with the sender taken out, and
/// each party's keypair seed is `wallets_seed` plus its index.
pub fn plan_transfer(
    service_id: u32,
    wallets_seed: u64,
    sender: usize,
    draw: usize,
    amount: u64,
    nonce: u64,
) -> (r: TransferPlan)
    requires
        draw < usize::MAX,
    ensures
        r.service_id == service_id,
        r.sender == sender,
        r.receiver == receiver_of(sender as int, draw as int),
        r.sender != r.receiver,
        r.sender_seed == seed_at(wallets_seed, sender as nat),
        r.receiver_seed == seed_at(wallets_seed, r.receiver as nat),
        r.amount == amount,
        r.nonce == nonce,
{
    let receiver = distinct_receiver(sender, draw);
    TransferPlan {
        service_id,
        sender,
        receiver,
        sender_seed: wallets_seed.wrapping_add(sender as u64),
        receiver_seed: wallets_seed.wrapping_add(receiver as u64),
        amount,
        nonce,
    }
}

/// Plans transfers between the members of the pool of `wallets_count`
/// wallets whose keypairs derive from `wallets_seed, wallets_seed + 1, ...`.
pub struct TransferGenerator {
    service_id: u32,
    seed: u64,
    wallets_count: usize,
    rand: XorShiftRng,
}

impl TransferGenerator {
    pub closed spec fn service(&self) -> u32 {
        self.service_id
    }

    /// The seed of the pool's first wallet.
    pub closed spec fn pool_seed(&self) -> u64 {
        self.seed
    }

    /// The number of wallets in the pool.
    pub closed spec fn pool_size(&self) -> nat {
        self.wallets_count as nat
    }

    /// A pool of one wallet cannot make a transfer: `wallets_count` must be
    /// at least two.
    pub fn new(conf: &TransferGeneratorConfig) -> (r: Self)
        requires
            conf.wallets_count > 1,
        ensures
            r.service() == conf.service_id,
            r.pool_seed() == conf.wallets_seed,
            r.pool_size() == conf.wallets_count,
    {
        let rand = xorshift_from_seed(rng_seed(conf.seed));
        Self {
            service_id: conf.service_id,
            seed: conf.wallets_seed,
            wallets_count: conf.wallets_count,
            rand,
        }
    }

    /// A pool index drawn from `0..bound`.
    fn random_owner(&mut self, bound: usize) -> (r: usize)
        requires
            0 < bound,
        ensures
            r < bound,
            final(self).service() == old(self).service(),
            final(self).pool_seed() == old(self).pool_seed(),
            final(self).pool_size() == old(self).pool_size(),
    {
        gen_range_u64(&mut self.rand, 0, bound as u64) as usize
    }

    /// The next transfer: two distinct members of the pool, an amount in
    /// `1..10` and a nonce, all drawn from the generator's own stream. The
    /// receiver is drawn among the members other than the sender, so no draw
    /// is ever thrown away.
    pub fn next(&mut self) -> (r: TransferPlan)
        requires
            old(self).pool_size() > 1,
        ensures
            r.service_id == old(self).service(),
            r.sender < old(self).pool_size(),
            r.receiver < old(self).pool_size(),
            r.sender != r.receiver,
            r.sender_seed == seed_at(old(self).pool_seed(), r.sender as nat),
            r.receiver_seed == seed_at(old(self).pool_seed(), r.receiver as nat),
            1 <= r.amount < 10,
            final(self).service() == old(self).service(),
            final(self).pool_seed() == old(self).pool_seed(),
            final(self).pool_size() == old(self).pool_size(),
    {
        let count = self.wallets_count;
        let sender = self.random_owner(count);
        let draw = self.random_owner(count - 1);
        let nonce = gen_u64(&mut self.rand);
        let amount = gen_range_u64(&mut self.rand, 1, 10);
        plan_transfer(self.service_id, self.seed, sender, draw, amount, nonce)
    }
}


/// Which kind of transaction a source plans, with the parameters of that
/// kind.
#[derive(Clone, Copy, Debug, PartialEq, Eq, Structural)]
pub enum GeneratorKind {
    CreateWallet,
    Transfer { wallets_count: usize, wallets_seed: u64 },
}

/// A plan of either kind.
#[derive(Clone, Copy, Debug, PartialEq, Eq, Structural)]
pub enum TxPlan {
    CreateWallet(WalletPlan),
    Transfer(TransferPlan),
}

/// The generator that a run draws its transactions from, chosen once by
/// kind.
pub enum TxSource {
    CreateWallet(CreateWalletGenerator),
    Transfer(TransferGenerator),
}

impl TxSource {
    pub open spec fn wf(&self) -> bool {
        match self {
            TxSource::CreateWallet(_) => true,
            TxSource::Transfer(g) => g.pool_size() > 1,
        }
    }

    /// The generator of `kind` under `service_id`, its own sequence started
    /// at `seed`; none for a transfer pool of fewer than two wallets.
    pub fn new(kind: GeneratorKind, service_id: u32, seed: u64) -> (r: Option<TxSource>)
        ensures
            match kind {
                GeneratorKind::CreateWallet => r matches Some(TxSource::CreateWallet(g)) && g.service()
                    == service_id && g.current() == seed,
                GeneratorKind::Transfer { wallets_count, wallets_seed } => if wallets_count > 1 {
                    r matches Some(TxSource::Transfer(g)) && g.service() == service_id
                        && g.pool_seed() == wallets_seed && g.pool_size() == wallets_count
                } else {
                    r is None
                },
            },
            r matches Some(src) ==> src.wf(),
    {
        match kind {
            GeneratorKind::CreateWallet => Some(
                TxSource::CreateWallet(CreateWalletGenerator::new(service_id, seed)),
            ),
            GeneratorKind::Transfer { wallets_count, wallets_seed } => {
                if wallets_count > 1 {
                    let conf = TransferGeneratorConfig { service_id, seed, wallets_count, wallets_seed };
                    Some(TxSource::Transfer(TransferGenerator::new(&conf)))
                } else {
                    None
                }
            },
        }
    }

    /// The next plan of the source's own kind.
    pub fn next(&mut self) -> (r: TxPlan)
        requires
            old(self).wf(),
        ensures
            final(self).wf(),
            match (*old(self), *final(self), r) {
                (TxSource::CreateWallet(g0), TxSource::CreateWallet(g1), TxPlan::CreateWallet(p)) => {
                    &&& p.service_id == g0.service()
                    &&& p.seed == g0.current()
                    &&& g1.service() == g0.service()
                    &&& g1.current() == step(g0.current())
                },
                (TxSource::Transfer(g0), TxSource::Transfer(g1), TxPlan::Transfer(p)) => {
                    &&& p.service_id == g0.service()
                    &&& p.sender < g0.pool_size()
                    &&& p.receiver < g0.pool_size()
                    &&& p.sender != p.receiver
                    &&& p.sender_seed == seed_at(g0.pool_seed(), p.sender as nat)
                    &&& p.receiver_seed == seed_at(g0.pool_seed(), p.receiver as nat)
                    &&& 1 <= p.amount < 10
                    &&& g1.service() == g0.service()
                    &&& g1.pool_seed() == g0.pool_seed()
                    &&& g1.pool_size() == g0.pool_size()
                },
                _ => false,
            },
    {
        match self {
            TxSource::CreateWallet(g) => TxPlan::CreateWallet(g.next()),
            TxSource::Transfer(g) => TxPlan::Transfer(g.next()),
        }
    }
}

/// A transfer planned over the pool of `wallets_count` wallets from
/// `wallets_seed` has both parties among the first `wallets_count` wallets
/// that a `CreateWalletGenerator` started at `wallets_seed` plans: each party
/// is the wallet of the step equal to its index.
pub proof fn lemma_transfer_parties_are_wallets(
    wallets_seed: u64,
    wallets_count: nat,
    plan: TransferPlan,
)
    requires
        plan.sender < wallets_count,
        plan.receiver < wallets_count,
        plan.sender_seed == seed_at(wallets_seed, plan.sender as nat),
        plan.receiver_seed == seed_at(wallets_seed, plan.receiver as nat),
    ensures
        advance(wallets_seed, plan.sender as nat) == plan.sender_seed,
        advance(wallets_seed, plan.receiver as nat) == plan.receiver_seed,
        exists|i: nat| i < wallets_count && advance(wallets_seed, i) == plan.sender_seed,
        exists|i: nat| i < wallets_count && advance(wallets_seed, i) == plan.receiver_seed,
{
    crate::keys::lemma_generator_sequence(wallets_seed, plan.sender as nat);
    crate::keys::lemma_generator_sequence(wallets_seed, plan.receiver as nat);
}

/// In a pool of two wallets the only draw for the receiver is `0`, and every
/// transfer goes from one wallet to the other: the receiver is the wallet
/// that the sender is not.
pub proof fn lemma_two_wallet_pool(plan: TransferPlan)
    requires
        plan.sender < 2,
        plan.receiver < 2,
        plan.sender != plan.receiver,
    ensures
        plan.receiver == 1 - plan.sender,
        receiver_of(plan.sender as int, 0) == plan.receiver,
{
}

} // verus!
