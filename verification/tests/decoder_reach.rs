use swap_offer::asset::{has_decodable_shape, parse_contract_id, AssetError};

const ALPHABET: [char; 14] = ['-', '-', '-', ':', '#', '1', '1', 'a', 'Z', '0', 'r', 'g', 'b', 'q'];

fn next(state: &mut u64) -> u64 {
    *state ^= *state << 13;
    *state ^= *state >> 7;
    *state ^= *state << 17;
    *state
}

fn sample(state: &mut u64, max_len: u64) -> String {
    let len = next(state) % (max_len + 1);
    let mut text = String::new();
    for _ in 0..len {
        text.push(ALPHABET[(next(state) % 14) as usize]);
    }
    text
}

#[test]
fn every_text_gets_an_answer() {
    let mut state = 0x9e3779b97f4a7c15u64;
    let mut asked = 0u32;
    let mut malformed = 0u32;
    for round in 0..60000u32 {
        let text = sample(&mut state, [400, 64, 24][(round % 3) as usize]);
        let shape = has_decodable_shape(&text);
        let outcome = parse_contract_id(&text);
        assert_eq!(shape, !matches!(outcome, Err(AssetError::Malformed)));
        if shape {
            asked += 1;
        } else {
            malformed += 1;
        }
    }
    assert!(asked > 1000);
    assert!(malformed > 20);
}

#[test]
fn texts_close_to_an_identifier_get_an_answer() {
    let id: Vec<char> = "rgb:pkXwpsb-aemTWhtSg-VDGF25hEi-jtTAnPjzh-B63ZwSehE-WvfhF9".chars().collect();
    let mut state = 0x2545f4914f6cdd1du64;
    let mut read = 0u32;
    for _ in 0..40000u32 {
        let mut text = id.clone();
        let edits = next(&mut state) % 4;
        for _ in 0..edits {
            let at = (next(&mut state) % (text.len() as u64 + 1)) as usize;
            match next(&mut state) % 3 {
                0 if at < text.len() => {
                    text.remove(at);
                }
                1 => text.insert(at, ALPHABET[(next(&mut state) % 14) as usize]),
                _ if at < text.len() => text[at] = ALPHABET[(next(&mut state) % 14) as usize],
                _ => {}
            }
        }
        let text: String = text.into_iter().collect();
        if parse_contract_id(&text).is_ok() {
            read += 1;
        }
    }
    assert!(read > 1000);
}

#[test]
fn long_runs_around_the_chunks_get_an_answer() {
    let mut state = 0x1234567887654321u64;
    let mut asked = 0u32;
    let mut malformed = 0u32;
    for _ in 0..4000u32 {
        let mut text = String::new();
        let parts = 1 + next(&mut state) % 9;
        for _ in 0..parts {
            let run = match next(&mut state) % 6 {
                0 => 7,
                1 => 9,
                2 => 120 + next(&mut state) % 30,
                _ => next(&mut state) % 40,
            };
            let digit = ['1', '2', 'z', 'A'][(next(&mut state) % 4) as usize];
            for _ in 0..run {
                text.push(digit);
            }
            text.push(['-', '-', '-', ':', '#', '0'][(next(&mut state) % 6) as usize]);
        }
        let shape = has_decodable_shape(&text);
        let outcome = parse_contract_id(&text);
        assert_eq!(shape, !matches!(outcome, Err(AssetError::Malformed)));
        if shape {
            asked += 1;
        } else {
            malformed += 1;
        }
    }
    assert!(asked > 100);
    assert!(malformed > 100);
}
