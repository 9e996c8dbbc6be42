use vstd::prelude::*;

verus! {

/// The one failure the randomness source can signal: it was unavailable.
#[derive(Clone, Copy, Debug, PartialEq, Eq)]
pub enum RandomReadErr {
    FailGetRandomSource,
}

impl RandomReadErr {
    /// Decodes the status code the randomness extension answers with: 0 is
    /// success, 1 is the failure kind. The source returns no other code, so
    /// other inputs are outside this function's domain.
    pub fn from_status_code(status_code: u32) -> (r: Result<(), RandomReadErr>)
        requires
            status_code <= 1,
        ensures
            r == Ok::<(), RandomReadErr>(()) <==> status_code == 0,
            r == Err::<(), RandomReadErr>(RandomReadErr::FailGetRandomSource) <==> status_code
                == 1,
    {
        match status_code {
            0 => Ok(()),
            _ => Err(RandomReadErr::FailGetRandomSource),
        }
    }
}

/// Notification that the stored random key was replaced.
#[derive(Clone, Copy, Debug, PartialEq, Eq)]
pub struct RandomUpdated {
    pub new: [u8; 32],
}

/// Notification that a claim was handed to the host.
#[derive(Clone, Debug, PartialEq, Eq)]
pub struct ClaimCreated {
    pub claim: Vec<u8>,
}

/// Notification that the host minted a kitty with the given id.
#[derive(Clone, Copy, Debug, PartialEq, Eq)]
pub struct KittyCreated {
    pub kitty_id: u32,
}

/// One entry of the contract's append-only notification log.
#[derive(Clone, Debug, PartialEq, Eq)]
pub enum RandkeyEvent {
    RandomUpdated(RandomUpdated),
    ClaimCreated(ClaimCreated),
    KittyCreated(KittyCreated),
}

/// A `RandomUpdated` notification as a log entry.
pub open spec fn random_updated_event(new: [u8; 32]) -> RandkeyEvent {
    RandkeyEvent::RandomUpdated(RandomUpdated { new })
}

/// A `ClaimCreated` notification as a log entry.
pub open spec fn claim_created_event(claim: Vec<u8>) -> RandkeyEvent {
    RandkeyEvent::ClaimCreated(ClaimCreated { claim })
}

/// A `KittyCreated` notification as a log entry.
pub open spec fn kitty_created_event(kitty_id: u32) -> RandkeyEvent {
    RandkeyEvent::KittyCreated(KittyCreated { kitty_id })
}

/// A contract that mirrors a host randomness source: it stores the last
/// fetched 32-byte key and the last minted kitty id. The host calls are
/// outside work; each operation here takes their outcome and performs the
/// state transition, so it is verified for every possible outcome.
pub struct Randkey {
    pub value: [u8; 32],
    pub kitty_id: u32,
    pub events: Vec<RandkeyEvent>,
}

impl Randkey {
    /// Creates the contract with the given initial key.
    pub fn new(init_value: [u8; 32]) -> (r: Randkey)
        ensures
            r.value@ == init_value@,
            r.kitty_id == 0,
            r.events@.len() == 0,
    {
        Randkey { value: init_value, kitty_id: 0, events: Vec::new() }
    }

    /// Creates the contract with the all-zero key.
    pub fn default() -> (r: Randkey)
        ensures
            forall|i: int| 0 <= i < 32 ==> r.value@[i] == 0,
            r.kitty_id == 0,
            r.events@.len() == 0,
    {
        Randkey::new([0u8; 32])
    }

    /// Stores a freshly fetched random key and logs the update; a fetch
    /// failure is passed through and changes nothing.
    pub fn update(&mut self, fetched: Result<[u8; 32], RandomReadErr>) -> (r: Result<
        (),
        RandomReadErr,
    >)
        ensures
            r is Ok <==> fetched is Ok,
            fetched matches Ok(v) ==> final(self).value == v && final(self).kitty_id == old(
                self,
            ).kitty_id && final(self).events@ == old(self).events@.push(random_updated_event(v)),
            fetched matches Err(e) ==> r == Err::<(), RandomReadErr>(e) && *final(self) == *old(
                self,
            ),
    {
        match fetched {
            Ok(new_randomkey) => {
                self.value = new_randomkey;
                self.events.push(RandkeyEvent::RandomUpdated(RandomUpdated { new: new_randomkey }));
                Ok(())
            },
            Err(e) => Err(e),
        }
    }

    /// Logs a claim the host accepted; a delivery failure is passed through
    /// and changes nothing.
    pub fn create_claim(&mut self, claim: Vec<u8>, delivered: Result<(), RandomReadErr>) -> (r:
        Result<(), RandomReadErr>)
        ensures
            r is Ok <==> delivered is Ok,
            delivered is Ok ==> final(self).value == old(self).value && final(self).kitty_id == old(
                self,
            ).kitty_id && final(self).events@ == old(self).events@.push(claim_created_event(claim)),
            delivered matches Err(e) ==> r == Err::<(), RandomReadErr>(e) && *final(self) == *old(
                self,
            ),
    {
        match delivered {
            Ok(_) => {
                self.events.push(RandkeyEvent::ClaimCreated(ClaimCreated { claim }));
                Ok(())
            },
            Err(e) => Err(e),
        }
    }

    /// Stores the id of a kitty the host minted and logs it; a failure is
    /// passed through and changes nothing.
    pub fn create_kitty(&mut self, minted: Result<u32, RandomReadErr>) -> (r: Result<
        (),
        RandomReadErr,
    >)
        ensures
            r is Ok <==> minted is Ok,
            minted matches Ok(id) ==> final(self).kitty_id == id && final(self).value == old(
                self,
            ).value && final(self).events@ == old(self).events@.push(kitty_created_event(id)),
            minted matches Err(e) ==> r == Err::<(), RandomReadErr>(e) && *final(self) == *old(
                self,
            ),
    {
        match minted {
            Ok(id) => {
                self.events.push(RandkeyEvent::KittyCreated(KittyCreated { kitty_id: id }));
                self.kitty_id = id;
                Ok(())
            },
            Err(e) => Err(e),
        }
    }

    /// The stored random key.
    pub fn get(&self) -> (r: [u8; 32])
        ensures
            r@ == self.value@,
    {
        self.value
    }

    /// The stored kitty id.
    pub fn get_kitty_id(&self) -> (r: u32)
        ensures
            r == self.kitty_id,
    {
        self.kitty_id
    }
}

} // verus!
