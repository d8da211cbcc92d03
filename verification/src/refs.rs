//! The contract-reference registry entities.
//!
//! Per network, the registry keys contracts by logical name; each entry
//! holds the code ids uploaded for it and the instances deployed from
//! them. The records are built here and persisted by an outside
//! collaborator; the maps are association lists whose keys stay unique.

use vstd::prelude::*;

verus! {

use crate::json::JsonValue;

/// One deployed contract instance.
pub struct ContractInstance {
    pub code_id: u64,
    pub address: String,
    pub attrs: Vec<(String, JsonValue)>,
}

impl ContractInstance {
    pub fn new(code_id: u64, address: String) -> (res: ContractInstance)
        ensures
            res.code_id == code_id,
            res.address == address,
            res.attrs@.len() == 0,
    {
        ContractInstance { code_id, address, attrs: Vec::new() }
    }
}

/// A logical contract: its uploaded code ids and deployed instances.
pub struct Contract {
    pub code_ids: Vec<u64>,
    pub instances: Vec<ContractInstance>,
}

/// First index bound to `key` in an association list of contracts.
pub open spec fn refs_index(s: Seq<(String, Contract)>, key: Seq<char>) -> Option<int>
    decreases s.len(),
{
    if s.len() == 0 {
        None
    } else if s[0].0@ == key {
        Some(0)
    } else {
        match refs_index(s.drop_first(), key) {
            Some(i) => Some(i + 1),
            None => None,
        }
    }
}

/// First instance with the given address in an instance list.
pub open spec fn find_instance(s: Seq<ContractInstance>, address: Seq<char>) -> Option<
    ContractInstance,
>
    decreases s.len(),
{
    if s.len() == 0 {
        None
    } else if s[0].address@ == address {
        Some(s[0])
    } else {
        find_instance(s.drop_first(), address)
    }
}

pub proof fn lemma_refs_index_in_range(s: Seq<(String, Contract)>, key: Seq<char>)
    ensures
        match refs_index(s, key) {
            Some(i) => 0 <= i < s.len() && s[i].0@ == key,
            None => forall|i: int| 0 <= i < s.len() ==> (#[trigger] s[i]).0@ != key,
        },
    decreases s.len(),
{
    if s.len() > 0 && s[0].0@ != key {
        lemma_refs_index_in_range(s.drop_first(), key);
        assert forall|i: int| 1 <= i < s.len() implies (#[trigger] s[i]) == s.drop_first()[i
            - 1] by {}
    }
}

/// The contract references of one network.
pub struct NetworkSpecificRefs {
    pub contracts: Vec<(String, Contract)>,
}

impl NetworkSpecificRefs {
    /// Each contract name is bound at most once.
    pub open spec fn wf(self) -> bool {
        forall|i: int, j: int| 0 <= i < j < self.contracts@.len() ==> (
        #[trigger] self.contracts@[i]).0@ != (#[trigger] self.contracts@[j]).0@
    }

    pub fn new() -> (res: NetworkSpecificRefs)
        ensures
            res.contracts@.len() == 0,
            res.wf(),
    {
        NetworkSpecificRefs { contracts: Vec::new() }
    }

    /// Find the entry for a contract name.
    fn find_entry(&self, contract: &str) -> (res: Option<usize>)
        ensures
            match res {
                Some(i) => refs_index(self.contracts@, contract@) == Some(i as int),
                None => refs_index(self.contracts@, contract@) is None,
            },
    {
        let n = self.contracts.len();
        let mut i: usize = 0;
        while i < n
            invariant
                n == self.contracts@.len(),
                0 <= i <= n,
                forall|j: int| 0 <= j < i ==> (#[trigger] self.contracts@[j]).0@ != contract@,
            decreases n - i,
        {
            if crate::json::str_eq(self.contracts[i].0.as_str(), contract) {
                proof {
                    lemma_refs_index_found(self.contracts@, contract@, i as int);
                }
                return Some(i);
            }
            i = i + 1;
        }
        proof {
            lemma_refs_index_in_range(self.contracts@, contract@);
        }
        None
    }

    /// The deployed instance of a contract at an address, if the
    /// registry holds one.
    pub fn get_contract_instance(&self, contract: &str, address: &str) -> (res: Option<
        &ContractInstance,
    >)
        ensures
            match res {
                Some(inst) => match refs_index(self.contracts@, contract@) {
                    Some(i) => find_instance(self.contracts@[i].1.instances@, address@)
                        == Some(*inst),
                    None => false,
                },
                None => match refs_index(self.contracts@, contract@) {
                    Some(i) => find_instance(
                        self.contracts@[i].1.instances@,
                        address@,
                    ) is None,
                    None => true,
                },
            },
    {
        let i = match self.find_entry(contract) {
            Some(i) => i,
            None => { return None },
        };
        proof {
            lemma_refs_index_in_range(self.contracts@, contract@);
        }
        let insts = &self.contracts[i].1.instances;
        let n = insts.len();
        let mut j: usize = 0;
        proof {
            assert(insts@.skip(0) =~= insts@);
        }
        while j < n
            invariant
                *insts == self.contracts@[refs_index(self.contracts@, contract@).unwrap()].1.instances,
                refs_index(self.contracts@, contract@) == Some(i as int),
                n == insts@.len(),
                0 <= j <= n,
                find_instance(insts@, address@) == find_instance(insts@.skip(j as int), address@),
            decreases n - j,
        {
            proof {
                assert(insts@.skip(j as int)[0] == insts@[j as int]);
                assert(insts@.skip(j as int).drop_first() =~= insts@.skip(j + 1));
            }
            if crate::json::str_eq(insts[j].address.as_str(), address) {
                return Some(&insts[j]);
            }
            j = j + 1;
        }
        proof {
            assert(insts@.skip(n as int).len() == 0);
        }
        None
    }

    /// The uploaded code ids of a contract, if the registry knows it.
    pub fn get_code_ids(&self, contract: &str) -> (res: Option<&Vec<u64>>)
        ensures
            match res {
                Some(ids) => match refs_index(self.contracts@, contract@) {
                    Some(i) => *ids == self.contracts@[i].1.code_ids,
                    None => false,
                },
                None => refs_index(self.contracts@, contract@) is None,
            },
    {
        match self.find_entry(contract) {
            Some(i) => {
                proof {
                    lemma_refs_index_in_range(self.contracts@, contract@);
                }
                Some(&self.contracts[i].1.code_ids)
            },
            None => None,
        }
    }

    /// Record a deployed instance under a contract name, creating the
    /// entry if the name is new. Keys stay unique; no other entry moves.
    pub fn add_contract_instance(&mut self, contract: &str, instance: ContractInstance)
        requires
            old(self).wf(),
        ensures
            final(self).wf(),
            match refs_index(old(self).contracts@, contract@) {
                Some(i) => {
                    &&& final(self).contracts@.len() == old(self).contracts@.len()
                    &&& (forall|j: int| 0 <= j < old(self).contracts@.len() && j != i
                        ==> final(self).contracts@[j] == old(self).contracts@[j])
                    &&& final(self).contracts@[i].0 == old(self).contracts@[i].0
                    &&& final(self).contracts@[i].1.code_ids == old(self).contracts@[i].1.code_ids
                    &&& final(self).contracts@[i].1.instances@ == old(
                        self,
                    ).contracts@[i].1.instances@.push(instance)
                },
                None => {
                    &&& final(self).contracts@.len() == old(self).contracts@.len() + 1
                    &&& (forall|j: int| 0 <= j < old(self).contracts@.len()
                        ==> final(self).contracts@[j] == old(self).contracts@[j])
                    &&& final(self).contracts@.last().0@ == contract@
                    &&& final(self).contracts@.last().1.code_ids@.len() == 0
                    &&& final(self).contracts@.last().1.instances@ == Seq::<
                        ContractInstance,
                    >::empty().push(instance)
                },
            },
    {
        proof {
            lemma_refs_index_in_range(self.contracts@, contract@);
        }
        match self.find_entry(contract) {
            Some(i) => {
                self.contracts[i].1.instances.push(instance);
            },
            None => {
                let mut c = Contract { code_ids: Vec::new(), instances: Vec::new() };
                c.instances.push(instance);
                self.contracts.push((String::from_str(contract), c));
            },
        }
    }

    /// Record an uploaded code id under a contract name, creating the
    /// entry if the name is new. Keys stay unique; no other entry moves.
    pub fn add_code_id(&mut self, contract: &str, code_id: u64)
        requires
            old(self).wf(),
        ensures
            final(self).wf(),
            match refs_index(old(self).contracts@, contract@) {
                Some(i) => {
                    &&& final(self).contracts@.len() == old(self).contracts@.len()
                    &&& (forall|j: int| 0 <= j < old(self).contracts@.len() && j != i
                        ==> final(self).contracts@[j] == old(self).contracts@[j])
                    &&& final(self).contracts@[i].0 == old(self).contracts@[i].0
                    &&& final(self).contracts@[i].1.instances == old(
                        self,
                    ).contracts@[i].1.instances
                    &&& final(self).contracts@[i].1.code_ids@ == old(
                        self,
                    ).contracts@[i].1.code_ids@.push(code_id)
                },
                None => {
                    &&& final(self).contracts@.len() == old(self).contracts@.len() + 1
                    &&& (forall|j: int| 0 <= j < old(self).contracts@.len()
                        ==> final(self).contracts@[j] == old(self).contracts@[j])
                    &&& final(self).contracts@.last().0@ == contract@
                    &&& final(self).contracts@.last().1.instances@.len() == 0
                    &&& final(self).contracts@.last().1.code_ids@ == Seq::<u64>::empty().push(
                        code_id,
                    )
                },
            },
    {
        proof {
            lemma_refs_index_in_range(self.contracts@, contract@);
        }
        match self.find_entry(contract) {
            Some(i) => {
                self.contracts[i].1.code_ids.push(code_id);
            },
            None => {
                let mut c = Contract { code_ids: Vec::new(), instances: Vec::new() };
                c.code_ids.push(code_id);
                self.contracts.push((String::from_str(contract), c));
            },
        }
    }
}

proof fn lemma_refs_index_found(s: Seq<(String, Contract)>, key: Seq<char>, i: int)
    requires
        0 <= i < s.len(),
        s[i].0@ == key,
        forall|j: int| 0 <= j < i ==> (#[trigger] s[j]).0@ != key,
    ensures
        refs_index(s, key) == Some(i),
    decreases i,
{
    if i > 0 {
        assert(forall|j: int| 0 <= j < i - 1 ==> (#[trigger] s.drop_first()[j]).0@ != key);
        assert(s.drop_first()[i - 1] == s[i]);
        lemma_refs_index_found(s.drop_first(), key, i - 1);
    }
}

/// The registry root: contract references per network name.
pub struct ContractRefs {
    pub networks: Vec<(String, NetworkSpecificRefs)>,
}

impl ContractRefs {
    /// Each network name is bound at most once, and each network's
    /// references keep their own keys unique.
    pub open spec fn wf(self) -> bool {
        &&& forall|i: int, j: int| 0 <= i < j < self.networks@.len() ==> (
        #[trigger] self.networks@[i]).0@ != (#[trigger] self.networks@[j]).0@
        &&& forall|i: int| 0 <= i < self.networks@.len() ==> (
        #[trigger] self.networks@[i]).1.wf()
    }

    pub fn new() -> (res: ContractRefs)
        ensures
            res.networks@.len() == 0,
            res.wf(),
    {
        ContractRefs { networks: Vec::new() }
    }
}

} // verus!
