//! The share ledger as mathematics: principal and shares as natural
//! numbers, the conversions between them, and the laws the accounting obeys.
//!
//! Nothing here is bounded by a machine word. The executable vault states its
//! results in these terms and adds its own overflow checks on top.

use vstd::prelude::*;
use crate::constants::SHARE_PRICE_SCALE;

verus! {

/// Pooled principal and the shares outstanding against it.
pub struct Ledger {
    pub deposits: nat,
    pub shares: nat,
}

/// One movement of the ledger.
pub enum LedgerOp {
    /// `amount` of principal comes in; shares are minted for it.
    Deposit { amount: nat },
    /// `shares` are burned; their worth in principal goes out.
    Withdraw { shares: nat },
}

impl Ledger {
    /// A ledger is consistent when it holds principal exactly while shares
    /// are outstanding.
    pub open spec fn wf(self) -> bool {
        self.shares == 0 <==> self.deposits == 0
    }

    /// Price of one whole share, scaled by `SHARE_PRICE_SCALE`; the scale
    /// itself while no share exists.
    pub open spec fn share_price(self) -> nat {
        if self.shares == 0 {
            SHARE_PRICE_SCALE as nat
        } else {
            (self.deposits * SHARE_PRICE_SCALE) as nat / self.shares
        }
    }

    /// Shares minted for a deposit of `amount`: one per unit while no share
    /// exists, else pro rata, rounded down.
    pub open spec fn shares_for(self, amount: nat) -> nat {
        if self.shares == 0 {
            amount
        } else {
            amount * self.shares / self.deposits
        }
    }

    /// Principal paid out for `shares`, pro rata, rounded down.
    pub open spec fn tokens_for(self, shares: nat) -> nat {
        shares * self.deposits / self.shares
    }

    /// Whether the ledger can take the movement at all: a deposit needs a
    /// price to mint at, a withdrawal needs the shares to exist.
    pub open spec fn accepts(self, op: LedgerOp) -> bool {
        match op {
            LedgerOp::Deposit { amount } => self.shares == 0 || self.deposits > 0,
            LedgerOp::Withdraw { shares } => 0 < shares <= self.shares,
        }
    }

    /// Principal that `op` brings in.
    pub open spec fn inflow(self, op: LedgerOp) -> nat {
        match op {
            LedgerOp::Deposit { amount } => if self.accepts(op) { amount } else { 0 },
            LedgerOp::Withdraw { shares } => 0,
        }
    }

    /// Principal that `op` pays out.
    pub open spec fn outflow(self, op: LedgerOp) -> nat {
        match op {
            LedgerOp::Deposit { amount } => 0,
            LedgerOp::Withdraw { shares } => if self.accepts(op) { self.tokens_for(shares) } else { 0 },
        }
    }

    /// The ledger after `op`; a movement that is not accepted changes nothing.
    pub open spec fn apply(self, op: LedgerOp) -> Ledger {
        if !self.accepts(op) {
            self
        } else {
            match op {
                LedgerOp::Deposit { amount } => Ledger {
                    deposits: self.deposits + amount,
                    shares: self.shares + self.shares_for(amount),
                },
                LedgerOp::Withdraw { shares } => Ledger {
                    deposits: (self.deposits - self.tokens_for(shares)) as nat,
                    shares: (self.shares - shares) as nat,
                },
            }
        }
    }

    /// The ledger after every movement of `ops`, in order.
    pub open spec fn run(self, ops: Seq<LedgerOp>) -> Ledger
        decreases ops.len(),
    {
        if ops.len() == 0 {
            self
        } else {
            self.run(ops.drop_last()).apply(ops.last())
        }
    }

    /// All principal brought in over `ops`.
    pub open spec fn total_inflow(self, ops: Seq<LedgerOp>) -> nat
        decreases ops.len(),
    {
        if ops.len() == 0 {
            0
        } else {
            self.total_inflow(ops.drop_last()) + self.run(ops.drop_last()).inflow(ops.last())
        }
    }

    /// All principal paid out over `ops`.
    pub open spec fn total_outflow(self, ops: Seq<LedgerOp>) -> nat
        decreases ops.len(),
    {
        if ops.len() == 0 {
            0
        } else {
            self.total_outflow(ops.drop_last()) + self.run(ops.drop_last()).outflow(ops.last())
        }
    }

    /// Whether shares stay outstanding after each movement of `ops`.
    pub open spec fn never_emptied(self, ops: Seq<LedgerOp>) -> bool {
        forall|n: int| 0 < n <= ops.len() ==> (#[trigger] self.run(ops.take(n))).shares > 0
    }
}

/// Rounding down loses less than one divisor.
pub proof fn lemma_floor_bounds(x: int, d: int)
    requires
        0 <= x,
        0 < d,
    ensures
        0 <= x / d,
        (x / d) * d <= x < (x / d) * d + d,
        x == (x / d) * d + x % d,
        0 <= x % d < d,
{
    vstd::arithmetic::div_mod::lemma_fundamental_div_mod(x, d);
    vstd::arithmetic::div_mod::lemma_mod_bound(x, d);
    vstd::arithmetic::div_mod::lemma_div_pos_is_pos(x, d);
    assert((x / d) * d == d * (x / d)) by (nonlinear_arith);
}

/// Rounded-down quotients keep the order of the fractions they round.
pub proof fn lemma_floor_keeps_order(a: int, b: int, c: int, d: int)
    requires
        0 <= a,
        0 <= c,
        0 < b,
        0 < d,
        c * b <= a * d,
    ensures
        c / d <= a / b,
{
    lemma_floor_bounds(a, b);
    lemma_floor_bounds(c, d);
    let q = c / d;
    let p = a / b;
    assert(q <= p) by (nonlinear_arith)
        requires
            0 <= q,
            0 <= p,
            0 < b,
            0 < d,
            q * d <= c,
            a < p * b + b,
            c * b <= a * d,
    {
        if q > p {
            assert(q >= p + 1);
            assert(q * d >= (p + 1) * d);
            assert(c * b >= (p + 1) * d * b);
            assert(a * d < (p * b + b) * d);
            assert((p * b + b) * d == (p + 1) * d * b);
        }
    }
}

/// A withdrawal never pays out more than the ledger holds.
pub proof fn lemma_tokens_within_deposits(l: Ledger, shares: nat)
    requires
        0 < shares <= l.shares,
    ensures
        l.tokens_for(shares) <= l.deposits,
        shares == l.shares ==> l.tokens_for(shares) == l.deposits,
        shares < l.shares && l.deposits > 0 ==> l.tokens_for(shares) < l.deposits,
{
    let x = (shares * l.deposits) as int;
    let s = l.shares as int;
    let d = l.deposits as int;
    let sh = shares as int;
    assert(0 <= sh * d) by (nonlinear_arith)
        requires
            0 <= sh,
            0 <= d,
    ;
    lemma_floor_bounds(x, s);
    let t = x / s;
    assert(t <= d) by (nonlinear_arith)
        requires
            t * s <= sh * d,
            0 < sh <= s,
            0 <= d,
            0 <= t,
    {
        if t > d {
            assert(t * s >= (d + 1) * s);
            assert((d + 1) * s > d * sh);
        }
    }
    if shares == l.shares {
        assert(t == d) by (nonlinear_arith)
            requires
                t * s <= s * d,
                s * d < t * s + s,
                0 < s,
        ;
    }
    if shares < l.shares && l.deposits > 0 {
        assert(t < d) by (nonlinear_arith)
            requires
                t * s <= sh * d,
                0 < sh < s,
                0 < d,
                0 <= t,
        {
            if t >= d {
                assert(t * s >= d * s);
                assert(d * s > sh * d);
            }
        }
    }
}

/// A consistent ledger stays consistent under every movement.
pub proof fn lemma_apply_keeps_wf(l: Ledger, op: LedgerOp)
    requires
        l.wf(),
    ensures
        l.apply(op).wf(),
{
    if l.accepts(op) {
        match op {
            LedgerOp::Deposit { amount } => {},
            LedgerOp::Withdraw { shares } => {
                lemma_tokens_within_deposits(l, shares);
            },
        }
    }
}

/// No drift: after any sequence of movements the principal held is what was
/// there, plus all that came in, minus all that went out.
pub proof fn lemma_no_drift(l: Ledger, ops: Seq<LedgerOp>)
    ensures
        l.run(ops).deposits + l.total_outflow(ops) == l.deposits + l.total_inflow(ops),
    decreases ops.len(),
{
    if ops.len() > 0 {
        let before = l.run(ops.drop_last());
        let op = ops.last();
        lemma_no_drift(l, ops.drop_last());
        if before.accepts(op) {
            match op {
                LedgerOp::Deposit { amount } => {},
                LedgerOp::Withdraw { shares } => {
                    lemma_tokens_within_deposits(before, shares);
                },
            }
        }
    }
}

/// No value leaks out of the shares that remain: a movement never lowers the
/// share price, unless it burns the last share of a ledger priced above the
/// scale, after which the price is the scale again.
pub proof fn lemma_share_price_never_falls(l: Ledger, op: LedgerOp)
    requires
        l.apply(op).shares > 0 || l.share_price() <= SHARE_PRICE_SCALE,
    ensures
        l.apply(op).share_price() >= l.share_price(),
{
    let k = SHARE_PRICE_SCALE as int;
    let d = l.deposits as int;
    let s = l.shares as int;
    let after = l.apply(op);
    let d2 = after.deposits as int;
    let s2 = after.shares as int;
    if l.accepts(op) && s2 > 0 {
        match op {
            LedgerOp::Deposit { amount } => {
                let a = amount as int;
                if s == 0 {
                    assert(0 <= d2 * k && (k * s2) * s2 <= (d2 * k) * s2) by (nonlinear_arith)
                        requires
                            0 < s2 <= d2,
                            0 <= k,
                    ;
                    lemma_floor_keeps_order(d2 * k, s2, k * s2, s2);
                    assert((k * s2) / s2 == k) by {
                        vstd::arithmetic::div_mod::lemma_div_multiples_vanish(k, s2);
                        assert(k * s2 == s2 * k) by (nonlinear_arith);
                    }
                } else {
                    let m = l.shares_for(amount) as int;
                    assert(0 <= a * s) by (nonlinear_arith)
                        requires
                            0 <= a,
                            0 <= s,
                    ;
                    lemma_floor_bounds(a * s, d);
                    assert(d * k * s2 <= d2 * k * s) by (nonlinear_arith)
                        requires
                            s2 == s + m,
                            d2 == d + a,
                            m * d <= a * s,
                            0 <= k,
                    ;
                    assert(0 <= d * k && 0 <= d2 * k) by (nonlinear_arith)
                        requires
                            0 <= d,
                            0 <= d2,
                            0 <= k,
                    ;
                    lemma_floor_keeps_order(d2 * k, s2, d * k, s);
                }
            },
            LedgerOp::Withdraw { shares } => {
                let sh = shares as int;
                let t = l.tokens_for(shares) as int;
                lemma_tokens_within_deposits(l, shares);
                assert(0 <= sh * d) by (nonlinear_arith)
                    requires
                        0 <= sh,
                        0 <= d,
                ;
                lemma_floor_bounds(sh * d, s);
                assert(d * k * s2 <= d2 * k * s) by (nonlinear_arith)
                    requires
                        s2 == s - sh,
                        d2 == d - t,
                        t * s <= sh * d,
                        0 <= k,
                ;
                assert(0 <= d * k && 0 <= d2 * k) by (nonlinear_arith)
                    requires
                        0 <= d,
                        0 <= d2,
                        0 <= k,
                ;
                lemma_floor_keeps_order(d2 * k, s2, d * k, s);
            },
        }
    }
}

/// Over any sequence of movements the share price ends no lower than it
/// began, provided the ledger is never emptied on the way or was priced at
/// most at the scale to begin with.
pub proof fn lemma_run_share_price_never_falls(l: Ledger, ops: Seq<LedgerOp>)
    requires
        l.never_emptied(ops) || l.share_price() <= SHARE_PRICE_SCALE,
    ensures
        l.run(ops).share_price() >= l.share_price(),
    decreases ops.len(),
{
    if ops.len() > 0 {
        let head = ops.drop_last();
        let before = l.run(head);
        let after = l.run(ops);
        if l.never_emptied(ops) {
            assert forall|n: int| 0 < n <= head.len() implies (#[trigger] l.run(head.take(n))).shares
                > 0 by {
                assert(head.take(n) =~= ops.take(n));
            }
            assert(ops.take(ops.len() as int) =~= ops);
            assert(l.run(ops.take(ops.len() as int)).shares > 0);
        }
        lemma_run_share_price_never_falls(l, head);
        if after.shares > 0 {
            lemma_share_price_never_falls(before, ops.last());
        }
    }
}

/// Bootstrap: the first deposit into an empty ledger mints one share per
/// unit and leaves the share price at the scale.
pub proof fn lemma_bootstrap(l: Ledger, amount: nat)
    requires
        l.deposits == 0,
        l.shares == 0,
    ensures
        l.accepts(LedgerOp::Deposit { amount }),
        l.shares_for(amount) == amount,
        l.apply(LedgerOp::Deposit { amount }) == (Ledger { deposits: amount, shares: amount }),
        l.apply(LedgerOp::Deposit { amount }).share_price() == SHARE_PRICE_SCALE,
{
    if amount > 0 {
        let k = SHARE_PRICE_SCALE as int;
        let a = amount as int;
        vstd::arithmetic::div_mod::lemma_div_multiples_vanish(k, a);
        assert(a * k == k * a) by (nonlinear_arith);
    }
}

/// Round trip: depositing `amount` into a consistent ledger and at once
/// withdrawing the shares it minted pays back at most `amount`. What is lost
/// is the remainder of the minting division, spread over the shares then
/// outstanding and rounded up; it is at most one unit whenever the principal
/// held before does not exceed those shares.
pub proof fn lemma_round_trip(l: Ledger, amount: nat)
    requires
        l.wf(),
        l.shares_for(amount) > 0,
    ensures
        l.accepts(LedgerOp::Deposit { amount }),
        l.apply(LedgerOp::Deposit { amount }).accepts(
            LedgerOp::Withdraw { shares: l.shares_for(amount) },
        ),
        round_trip_return(l, amount) <= amount,
        l.shares == 0 ==> round_trip_return(l, amount) == amount,
        l.shares > 0 ==> {
            let outstanding = l.shares + l.shares_for(amount);
            let remainder = (amount * l.shares) % l.deposits;
            let loss = amount - round_trip_return(l, amount);
            remainder <= loss * outstanding < remainder + outstanding
        },
        l.deposits <= l.shares + l.shares_for(amount) ==> amount - round_trip_return(l, amount) <= 1,
{
    let d = l.deposits as int;
    let s = l.shares as int;
    let a = amount as int;
    let m = l.shares_for(amount) as int;
    let after = l.apply(LedgerOp::Deposit { amount });
    let t = round_trip_return(l, amount) as int;
    if s == 0 {
        vstd::arithmetic::div_mod::lemma_div_multiples_vanish(a, a);
        assert(a * a == (a * a) as nat as int) by (nonlinear_arith)
            requires
                0 <= a,
        ;
    } else {
        assert(0 <= a * s) by (nonlinear_arith)
            requires
                0 <= a,
                0 <= s,
        ;
        lemma_floor_bounds(a * s, d);
        let r = (a * s) % d;
        let n = s + m;
        let x = m * (d + a);
        assert(x == a * n - r) by (nonlinear_arith)
            requires
                x == m * (d + a),
                n == s + m,
                a * s == m * d + r,
        ;
        assert(0 <= x) by (nonlinear_arith)
            requires
                x == m * (d + a),
                0 <= m,
                0 <= d,
                0 <= a,
        ;
        lemma_floor_bounds(x, n);
        assert(t == x / n);
        let loss = a - t;
        assert(r <= loss * n < r + n) by (nonlinear_arith)
            requires
                loss == a - t,
                x == a * n - r,
                t * n <= x < t * n + n,
        ;
        assert(loss >= 0) by (nonlinear_arith)
            requires
                loss * n >= r,
                r >= 0,
                n > 0,
        {
            if loss < 0 {
                assert(loss * n <= -1 * n);
            }
        }
        if d <= n {
            assert(loss <= 1) by (nonlinear_arith)
                requires
                    loss * n < r + n,
                    r < d,
                    d <= n,
                    n > 0,
            {
                if loss >= 2 {
                    assert(loss * n >= 2 * n);
                }
            }
        }
    }
}

/// Principal paid back when the shares minted for a deposit of `amount` are
/// withdrawn at once.
pub open spec fn round_trip_return(l: Ledger, amount: nat) -> nat {
    l.apply(LedgerOp::Deposit { amount }).tokens_for(l.shares_for(amount))
}

} // verus!
