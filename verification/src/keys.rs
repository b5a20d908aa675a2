use vstd::prelude::*;

verus! {

/// Pins down length and characters of every numeric resource key the
/// wire protocol uses, so that proofs about concrete payloads can tell
/// the keys apart.
pub proof fn lemma_wire_key_chars()
    ensures
        "0"@.len() == 1,
        "0"@[0] == '0',
        "1"@.len() == 1,
        "1"@[0] == '1',
        "2"@.len() == 1,
        "2"@[0] == '2',
        "3"@.len() == 1,
        "3"@[0] == '3',
        "9"@.len() == 1,
        "9"@[0] == '9',
        "3311"@.len() == 4,
        "3311"@[0] == '3',
        "3311"@[1] == '3',
        "3311"@[2] == '1',
        "3311"@[3] == '1',
        "3312"@.len() == 4,
        "3312"@[0] == '3',
        "3312"@[1] == '3',
        "3312"@[2] == '1',
        "3312"@[3] == '2',
        "5706"@.len() == 4,
        "5706"@[0] == '5',
        "5706"@[1] == '7',
        "5706"@[2] == '0',
        "5706"@[3] == '6',
        "5707"@.len() == 4,
        "5707"@[0] == '5',
        "5707"@[1] == '7',
        "5707"@[2] == '0',
        "5707"@[3] == '7',
        "5708"@.len() == 4,
        "5708"@[0] == '5',
        "5708"@[1] == '7',
        "5708"@[2] == '0',
        "5708"@[3] == '8',
        "5709"@.len() == 4,
        "5709"@[0] == '5',
        "5709"@[1] == '7',
        "5709"@[2] == '0',
        "5709"@[3] == '9',
        "5710"@.len() == 4,
        "5710"@[0] == '5',
        "5710"@[1] == '7',
        "5710"@[2] == '1',
        "5710"@[3] == '0',
        "5711"@.len() == 4,
        "5711"@[0] == '5',
        "5711"@[1] == '7',
        "5711"@[2] == '1',
        "5711"@[3] == '1',
        "5712"@.len() == 4,
        "5712"@[0] == '5',
        "5712"@[1] == '7',
        "5712"@[2] == '1',
        "5712"@[3] == '2',
        "5750"@.len() == 4,
        "5750"@[0] == '5',
        "5750"@[1] == '7',
        "5750"@[2] == '5',
        "5750"@[3] == '0',
        "5850"@.len() == 4,
        "5850"@[0] == '5',
        "5850"@[1] == '8',
        "5850"@[2] == '5',
        "5850"@[3] == '0',
        "5851"@.len() == 4,
        "5851"@[0] == '5',
        "5851"@[1] == '8',
        "5851"@[2] == '5',
        "5851"@[3] == '1',
        "9001"@.len() == 4,
        "9001"@[0] == '9',
        "9001"@[1] == '0',
        "9001"@[2] == '0',
        "9001"@[3] == '1',
        "9002"@.len() == 4,
        "9002"@[0] == '9',
        "9002"@[1] == '0',
        "9002"@[2] == '0',
        "9002"@[3] == '2',
        "9003"@.len() == 4,
        "9003"@[0] == '9',
        "9003"@[1] == '0',
        "9003"@[2] == '0',
        "9003"@[3] == '3',
        "9018"@.len() == 4,
        "9018"@[0] == '9',
        "9018"@[1] == '0',
        "9018"@[2] == '1',
        "9018"@[3] == '8',
        "9019"@.len() == 4,
        "9019"@[0] == '9',
        "9019"@[1] == '0',
        "9019"@[2] == '1',
        "9019"@[3] == '9',
        "9020"@.len() == 4,
        "9020"@[0] == '9',
        "9020"@[1] == '0',
        "9020"@[2] == '2',
        "9020"@[3] == '0',
        "9039"@.len() == 4,
        "9039"@[0] == '9',
        "9039"@[1] == '0',
        "9039"@[2] == '3',
        "9039"@[3] == '9',
        "9090"@.len() == 4,
        "9090"@[0] == '9',
        "9090"@[1] == '0',
        "9090"@[2] == '9',
        "9090"@[3] == '0',
        "9091"@.len() == 4,
        "9091"@[0] == '9',
        "9091"@[1] == '0',
        "9091"@[2] == '9',
        "9091"@[3] == '1',
{
    reveal_strlit("0");
    reveal_strlit("1");
    reveal_strlit("2");
    reveal_strlit("3");
    reveal_strlit("9");
    reveal_strlit("3311");
    reveal_strlit("3312");
    reveal_strlit("5706");
    reveal_strlit("5707");
    reveal_strlit("5708");
    reveal_strlit("5709");
    reveal_strlit("5710");
    reveal_strlit("5711");
    reveal_strlit("5712");
    reveal_strlit("5750");
    reveal_strlit("5850");
    reveal_strlit("5851");
    reveal_strlit("9001");
    reveal_strlit("9002");
    reveal_strlit("9003");
    reveal_strlit("9018");
    reveal_strlit("9019");
    reveal_strlit("9020");
    reveal_strlit("9039");
    reveal_strlit("9090");
    reveal_strlit("9091");
}

} // verus!
