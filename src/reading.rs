use vstd::prelude::*;

use crate::{
    answer_of, count_from_le_bytes, le_count, AllChannelMeasurement, Error, I2cBus, Veml6040, DEVICE_ADDRESS,
    REG_B_DATA, REG_G_DATA, REG_R_DATA, REG_W_DATA,
};

verus! {

/// The requests that read the four data registers, red, green, blue, white.
pub open spec fn read_requests() -> Seq<Seq<u8>> {
    seq![seq![REG_R_DATA], seq![REG_G_DATA], seq![REG_B_DATA], seq![REG_W_DATA]]
}

impl<I2C: I2cBus> Veml6040<I2C> {
    /// `next` is `prev` after one attempt to read the data register `register`:
    /// the register address went out once; where the bus answered, the two bytes
    /// that came back are logged and the count is what they stand for; where it
    /// failed, its error is returned.
    pub open spec fn read_register(
        prev: Self,
        next: Self,
        register: u8,
        r: Result<u16, Error<I2C::Error>>,
    ) -> bool {
        &&& next.sent() == prev.sent().push(seq![register])
        &&& next.answers().len() == prev.answers().len() + 1
        &&& next.answers().drop_last() == prev.answers()
        &&& next.config() == prev.config()
        &&& match next.answers().last() {
            None => {
                &&& r is Ok
                &&& next.received().len() == prev.received().len() + 1
                &&& next.received().drop_last() == prev.received()
                &&& r->Ok_0 as int == le_count(next.received().last())
            },
            Some(e) => {
                &&& r == Err::<u16, Error<I2C::Error>>(Error::I2C(e))
                &&& next.received() == prev.received()
            },
        }
    }

    /// `cur` is `prev` after the first `j` data registers were read, each with
    /// success.
    pub open spec fn reads_so_far(prev: Self, cur: Self, j: int) -> bool {
        let n = prev.answers().len() as int;
        &&& cur.sent() == prev.sent() + read_requests().take(j)
        &&& cur.answers().len() == n + j
        &&& cur.answers().subrange(0, n) == prev.answers()
        &&& forall|i: int| n <= i < n + j ==> #[trigger] cur.answers()[i] is None
        &&& cur.received().len() == prev.received().len() + j
        &&& cur.received().subrange(0, prev.received().len() as int) == prev.received()
        &&& cur.config() == prev.config()
    }

    /// `next` is `prev` after the data registers were read in turn, red, green,
    /// blue, white, up to the first that failed: on success `m` holds the four
    /// counts that came back, on failure the bus's error is returned and no
    /// further register was asked for.
    pub open spec fn read_all_result(
        prev: Self,
        next: Self,
        r: Result<AllChannelMeasurement, Error<I2C::Error>>,
    ) -> bool {
        let n = prev.answers().len() as int;
        let k = next.answers().len() - n;
        &&& 1 <= k <= 4
        &&& next.sent() == prev.sent() + read_requests().take(k)
        &&& next.answers().subrange(0, n) == prev.answers()
        &&& forall|i: int| n <= i < n + k - 1 ==> #[trigger] next.answers()[i] is None
        &&& next.config() == prev.config()
        &&& next.received().subrange(0, prev.received().len() as int) == prev.received()
        &&& match next.answers().last() {
            None => k == 4 && r is Ok && Self::read_all(prev, next, r->Ok_0),
            Some(e) => {
                &&& r == Err::<AllChannelMeasurement, Error<I2C::Error>>(Error::I2C(e))
                &&& next.received().len() == prev.received().len() + k - 1
            },
        }
    }

    /// `next` is `prev` after the four data registers were read in turn, red, green,
    /// blue, white, each with success, and `m` holds the four counts that came back.
    pub open spec fn read_all(prev: Self, next: Self, m: AllChannelMeasurement) -> bool {
        let n = prev.received().len() as int;
        &&& next.sent() == prev.sent() + read_requests()
        &&& next.received().len() == n + 4
        &&& next.received().subrange(0, n) == prev.received()
        &&& m.red as int == le_count(next.received()[n])
        &&& m.green as int == le_count(next.received()[n + 1])
        &&& m.blue as int == le_count(next.received()[n + 2])
        &&& m.white as int == le_count(next.received()[n + 3])
    }

    proof fn lemma_read_step(prev: Self, cur: Self, next: Self, j: int, r: Result<u16, Error<I2C::Error>>)
        requires
            0 <= j < 4,
            Self::reads_so_far(prev, cur, j),
            Self::read_register(cur, next, read_requests()[j][0], r),
        ensures
            next.sent() == prev.sent() + read_requests().take(j + 1),
            next.answers().len() == prev.answers().len() + j + 1,
            next.answers().subrange(0, prev.answers().len() as int) == prev.answers(),
            forall|i: int|
                prev.answers().len() <= i < prev.answers().len() + j ==> #[trigger] next.answers()[i]
                    is None,
            next.received().subrange(0, prev.received().len() as int) == prev.received(),
            next.config() == prev.config(),
            next.answers().last() is None ==> Self::reads_so_far(prev, next, j + 1),
            next.answers().last() is Some ==> next.received().len() == prev.received().len() + j,
    {
        let n = prev.answers().len() as int;
        assert(read_requests()[j] =~= seq![read_requests()[j][0]]);
        assert(read_requests().take(j + 1) =~= read_requests().take(j).push(read_requests()[j]));
        assert(next.sent() =~= prev.sent() + read_requests().take(j + 1));
        assert(next.answers().subrange(0, n) =~= prev.answers());
        assert forall|i: int| n <= i < n + j implies #[trigger] next.answers()[i] is None by {
            assert(next.answers()[i] == next.answers().drop_last()[i]);
        }
        assert(next.received().subrange(0, prev.received().len() as int) =~= prev.received());
    }

    /// Read the red channel measurement data.
    pub fn read_red_channel(&mut self) -> (r: Result<u16, Error<I2C::Error>>)
        ensures
            Self::read_register(*old(self), *final(self), REG_R_DATA, r),
    {
        self.read_channel(REG_R_DATA)
    }

    /// Read the green channel measurement data.
    pub fn read_green_channel(&mut self) -> (r: Result<u16, Error<I2C::Error>>)
        ensures
            Self::read_register(*old(self), *final(self), REG_G_DATA, r),
    {
        self.read_channel(REG_G_DATA)
    }

    /// Read the blue channel measurement data.
    pub fn read_blue_channel(&mut self) -> (r: Result<u16, Error<I2C::Error>>)
        ensures
            Self::read_register(*old(self), *final(self), REG_B_DATA, r),
    {
        self.read_channel(REG_B_DATA)
    }

    /// Read the white channel measurement data.
    pub fn read_white_channel(&mut self) -> (r: Result<u16, Error<I2C::Error>>)
        ensures
            Self::read_register(*old(self), *final(self), REG_W_DATA, r),
    {
        self.read_channel(REG_W_DATA)
    }

    /// Read the measurement data of all channels, red, green, blue then white,
    /// stopping at the first failure.
    pub fn read_all_channels(&mut self) -> (r: Result<AllChannelMeasurement, Error<I2C::Error>>)
        ensures
            Self::read_all_result(*old(self), *final(self), r),
    {
        let ghost s0 = *self;
        proof {
            assert(read_requests().take(0) =~= Seq::<Seq<u8>>::empty());
            assert(self.sent() =~= s0.sent() + read_requests().take(0));
            assert(self.answers().subrange(0, s0.answers().len() as int) =~= s0.answers());
            assert(self.received().subrange(0, s0.received().len() as int) =~= s0.received());
        }
        let ghost s1 = *self;
        let red = self.read_red_channel();
        proof { Self::lemma_read_step(s0, s1, *self, 0, red); }
        let red = match red {
            Ok(v) => v,
            Err(e) => return Err(e),
        };
        let ghost s2 = *self;
        let green = self.read_green_channel();
        proof { Self::lemma_read_step(s0, s2, *self, 1, green); }
        let green = match green {
            Ok(v) => v,
            Err(e) => return Err(e),
        };
        let ghost s3 = *self;
        let blue = self.read_blue_channel();
        proof { Self::lemma_read_step(s0, s3, *self, 2, blue); }
        let blue = match blue {
            Ok(v) => v,
            Err(e) => return Err(e),
        };
        let ghost s4 = *self;
        let white = self.read_white_channel();
        proof { Self::lemma_read_step(s0, s4, *self, 3, white); }
        let white = match white {
            Ok(v) => v,
            Err(e) => return Err(e),
        };
        proof {
            assert(read_requests().take(4) =~= read_requests());
        }
        Ok(AllChannelMeasurement { red, green, blue, white })
    }

    fn read_channel(&mut self, first_register: u8) -> (r: Result<u16, Error<I2C::Error>>)
        ensures
            Self::read_register(*old(self), *final(self), first_register, r),
    {
        let request: [u8; 1] = [first_register];
        let res = self.i2c.write_read(DEVICE_ADDRESS, &request);
        proof {
            assert(request@ =~= seq![first_register]);
            self.sent@ = self.sent@.push(request@);
            self.answers@ = self.answers@.push(answer_of(res));
            assert(self.answers@.drop_last() =~= old(self).answers());
        }
        match res {
            Ok(data) => {
                proof {
                    self.received@ = self.received@.push(data@);
                    assert(self.received@.drop_last() =~= old(self).received());
                }
                Ok(count_from_le_bytes(data))
            },
            Err(e) => Err(Error::I2C(e)),
        }
    }
}

} // verus!
