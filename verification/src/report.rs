//! The record of a completed multi-hop payment and the text it is saved as:
//! one item per line, in a fixed order.
use vstd::prelude::*;

verus! {

/// What the run learnt about the payment.
#[derive(Debug)]
pub struct PaymentRecord {
    /// The payment hash of Carol's invoice.
    pub payment_hash: String,
    /// The preimage Alice received for the payment.
    pub preimage: String,
    /// Carol's BOLT11 invoice.
    pub bolt11: String,
    /// Alice's node id.
    pub payer_id: String,
    /// Carol's node id.
    pub payee_id: String,
    /// The fee Bob earned, in millisatoshi.
    pub fee_msat: String,
    /// The payment hash Bob reports for the forward.
    pub forwarded_hash: String,
}

/// The items of a record, in the order they are saved.
pub open spec fn record_fields(r: PaymentRecord) -> Seq<Seq<char>> {
    seq![
        r.payment_hash@,
        r.preimage@,
        r.bolt11@,
        r.payer_id@,
        r.payee_id@,
        r.fee_msat@,
        r.forwarded_hash@,
    ]
}

/// Each item followed by a line break.
pub open spec fn lines_text(fields: Seq<Seq<char>>) -> Seq<char>
    decreases fields.len(),
{
    if fields.len() == 0 {
        Seq::empty()
    } else {
        fields[0] + seq!['\n'] + lines_text(fields.drop_first())
    }
}

/// Whether a text holds no line break.
pub open spec fn single_line(s: Seq<char>) -> bool {
    forall|i: int| 0 <= i < s.len() ==> s[i] != '\n'
}

proof fn lemma_lines_text_push(fields: Seq<Seq<char>>, f: Seq<char>)
    ensures
        lines_text(fields.push(f)) == lines_text(fields) + f + seq!['\n'],
    decreases fields.len(),
{
    if fields.len() == 0 {
        assert(fields.push(f).drop_first() =~= Seq::<Seq<char>>::empty());
        assert(lines_text(fields.push(f).drop_first()) =~= Seq::<char>::empty());
        assert(fields.push(f)[0] == f);
        assert(lines_text(fields.push(f)) =~= f + seq!['\n']);
    } else {
        assert(fields.push(f).drop_first() =~= fields.drop_first().push(f));
        lemma_lines_text_push(fields.drop_first(), f);
        assert(lines_text(fields.push(f)) =~= lines_text(fields) + f + seq!['\n']);
    }
}

impl PaymentRecord {
    /// The record as text: each item on a line of its own.
    pub fn report(&self) -> (res: String)
        ensures
            res@ == lines_text(record_fields(*self)),
    {
        proof {
            reveal_strlit("\n");
        }
        let ghost fields = record_fields(*self);
        let mut s = String::new();
        assert(fields.take(0) =~= Seq::<Seq<char>>::empty());
        s.append(self.payment_hash.as_str());
        s.append("\n");
        proof {
            lemma_lines_text_push(fields.take(0), fields[0]);
            assert(fields.take(0).push(fields[0]) =~= fields.take(1));
        }
        s.append(self.preimage.as_str());
        s.append("\n");
        proof {
            lemma_lines_text_push(fields.take(1), fields[1]);
            assert(fields.take(1).push(fields[1]) =~= fields.take(2));
        }
        s.append(self.bolt11.as_str());
        s.append("\n");
        proof {
            lemma_lines_text_push(fields.take(2), fields[2]);
            assert(fields.take(2).push(fields[2]) =~= fields.take(3));
        }
        s.append(self.payer_id.as_str());
        s.append("\n");
        proof {
            lemma_lines_text_push(fields.take(3), fields[3]);
            assert(fields.take(3).push(fields[3]) =~= fields.take(4));
        }
        s.append(self.payee_id.as_str());
        s.append("\n");
        proof {
            lemma_lines_text_push(fields.take(4), fields[4]);
            assert(fields.take(4).push(fields[4]) =~= fields.take(5));
        }
        s.append(self.fee_msat.as_str());
        s.append("\n");
        proof {
            lemma_lines_text_push(fields.take(5), fields[5]);
            assert(fields.take(5).push(fields[5]) =~= fields.take(6));
        }
        s.append(self.forwarded_hash.as_str());
        s.append("\n");
        proof {
            lemma_lines_text_push(fields.take(6), fields[6]);
            assert(fields.take(6).push(fields[6]) =~= fields);
            assert(s@ =~= lines_text(fields));
        }
        s
    }
}

/// Items that hold no line break can be read back from their text: two lists
/// of such items with the same text are the same list.
pub proof fn lines_read_back(a: Seq<Seq<char>>, b: Seq<Seq<char>>)
    requires
        forall|i: int| 0 <= i < a.len() ==> single_line(#[trigger] a[i]),
        forall|i: int| 0 <= i < b.len() ==> single_line(#[trigger] b[i]),
        lines_text(a) == lines_text(b),
    ensures
        a == b,
    decreases a.len(),
{
    if a.len() == 0 {
        if b.len() > 0 {
            assert(lines_text(b).len() > 0);
        }
        assert(a =~= b);
    } else if b.len() == 0 {
        assert(lines_text(a).len() > 0);
    } else {
        let (a0, b0) = (a[0], b[0]);
        let (ta, tb) = (lines_text(a), lines_text(b));
        assert(single_line(a0) && single_line(b0));
        if a0.len() < b0.len() {
            assert(ta[a0.len() as int] == '\n');
            assert(tb[a0.len() as int] == b0[a0.len() as int]);
        } else if b0.len() < a0.len() {
            assert(tb[b0.len() as int] == '\n');
            assert(ta[b0.len() as int] == a0[b0.len() as int]);
        }
        assert(a0.len() == b0.len());
        assert forall|i: int| 0 <= i < a0.len() implies a0[i] == b0[i] by {
            assert(ta[i] == a0[i]);
            assert(tb[i] == b0[i]);
        }
        assert(a0 =~= b0);
        let rest_a = lines_text(a.drop_first());
        let rest_b = lines_text(b.drop_first());
        assert(ta.subrange(a0.len() as int + 1, ta.len() as int) =~= rest_a);
        assert(tb.subrange(b0.len() as int + 1, tb.len() as int) =~= rest_b);
        assert forall|i: int| 0 <= i < a.drop_first().len() implies single_line(#[trigger] a.drop_first()[i]) by {
            assert(a.drop_first()[i] == a[i + 1]);
        }
        assert forall|i: int| 0 <= i < b.drop_first().len() implies single_line(#[trigger] b.drop_first()[i]) by {
            assert(b.drop_first()[i] == b[i + 1]);
        }
        lines_read_back(a.drop_first(), b.drop_first());
        assert(a.len() == b.len());
        assert forall|i: int| 0 <= i < a.len() implies a[i] == b[i] by {
            if i > 0 {
                assert(a[i] == a.drop_first()[i - 1]);
                assert(b[i] == b.drop_first()[i - 1]);
            }
        }
        assert(a =~= b);
    }
}

/// The saved text determines the record: two records whose items hold no line
/// break and whose texts agree have the same items.
pub proof fn record_reads_back(r1: PaymentRecord, r2: PaymentRecord)
    requires
        forall|i: int| 0 <= i < 7 ==> single_line(#[trigger] record_fields(r1)[i]),
        forall|i: int| 0 <= i < 7 ==> single_line(#[trigger] record_fields(r2)[i]),
        lines_text(record_fields(r1)) == lines_text(record_fields(r2)),
    ensures
        record_fields(r1) == record_fields(r2),
{
    lines_read_back(record_fields(r1), record_fields(r2));
}

} // verus!
