use semantic_units::nesting::nesting_is_within;

struct Dice(u64, u64);

impl Dice {
    fn roll(&mut self, sides: u64) -> u64 {
        self.0 = self.0.wrapping_mul(6364136223846793005).wrapping_add(1442695040888963407);
        (self.0 >> 33) % sides
    }
}

fn least_limit(text: &str) -> usize {
    let mut limit = 0;
    while !nesting_is_within(text, limit) {
        limit += 1;
    }
    limit
}

fn depth(value: &toml::Value) -> usize {
    match value {
        toml::Value::Array(items) => 1 + items.iter().map(depth).max().unwrap_or(0),
        toml::Value::Table(table) => 1 + table.values().map(depth).max().unwrap_or(0),
        _ => 0,
    }
}

fn key(dice: &mut Dice) -> String {
    let parts = 1 + dice.roll(3);
    let mut out = String::new();
    for i in 0..parts {
        if i > 0 {
            out.push_str(if dice.roll(4) == 0 { " . " } else { "." });
        }
        match dice.roll(6) {
            0 => out.push_str("\"q.[{\\\"]}\""),
            1 => out.push_str("'l.[{\"]}'"),
            2 => out.push_str("k1"),
            3 => out.push_str("k-2"),
            4 => out.push_str("k_3"),
            _ => out.push_str("k"),
        }
        dice.1 += 1;
        out.push_str(&dice.1.to_string());
    }
    out
}

fn gap(dice: &mut Dice) -> &'static str {
    match dice.roll(6) {
        0 => "\n",
        1 => " # ]]} [[{ \"\"\" ''' \n",
        2 => "\r\n",
        3 => " \n\t",
        _ => " ",
    }
}

fn value(dice: &mut Dice, room: u64, inline: bool) -> String {
    let pick = if room == 0 { dice.roll(8) } else { dice.roll(12) };
    match pick {
        0 => "1".to_string(),
        1 => "1.5".to_string(),
        2 => "true".to_string(),
        3 => "\"s ]}.[{ \\\" \\\\ # '\"".to_string(),
        4 => "'l ]}.[{ \" \\ #'".to_string(),
        5 => "\"\"".to_string(),
        6 => {
            if inline {
                "''".to_string()
            } else {
                "\"\"\"\n]] }} .. [[ {{ \"\" ' \\\" \\\n   x = [\n\"\"\"".to_string()
            }
        }
        7 => {
            if inline {
                "1979-05-27".to_string()
            } else {
                "'''\n]] }} .. [[ {{ '' \" \\ # \n'''".to_string()
            }
        }
        8 | 9 => {
            let count = dice.roll(4);
            let mut out = String::from("[");
            for i in 0..count {
                if i > 0 {
                    out.push(',');
                }
                out.push_str(gap(dice));
                out.push_str(&value(dice, room - 1, inline));
                out.push_str(gap(dice));
            }
            if count > 0 && dice.roll(3) == 0 {
                out.push(',');
            }
            out.push_str(gap(dice));
            out.push(']');
            out
        }
        _ => {
            let count = dice.roll(3);
            let mut out = String::from("{ ");
            for i in 0..count {
                if i > 0 {
                    out.push_str(", ");
                }
                out.push_str(&key(dice));
                out.push_str(" = ");
                out.push_str(&value(dice, room - 1, true));
            }
            out.push_str(" }");
            out
        }
    }
}

fn document(dice: &mut Dice, headers: bool) -> String {
    let mut out = String::new();
    let lines = 1 + dice.roll(8);
    for _ in 0..lines {
        match if headers { dice.roll(7) } else { 2 + dice.roll(5) } {
            0 => out.push_str(&format!("[{}]", key(dice))),
            1 => out.push_str(&format!("[[{}]]", key(dice))),
            2 => out.push_str("# [[ {{ .. ]] \"\"\" '''"),
            3 => {}
            _ => out.push_str(&format!("{} = {}", key(dice), value(dice, 4, false))),
        }
        out.push_str(if dice.roll(5) == 0 { " # c ]}\n" } else { "\n" });
    }
    out
}

fn spoil(dice: &mut Dice, text: &str) -> String {
    let chars: Vec<char> = text.chars().collect();
    let extra = ['[', ']', '{', '}', '.', ',', '=', '"', '\'', '#', '\\', '\n', 'a', ' '];
    let mut out = String::new();
    for c in chars {
        match dice.roll(60) {
            0 => {}
            1 => {
                out.push(extra[dice.roll(extra.len() as u64) as usize]);
                out.push(c);
            }
            2 => out.push(extra[dice.roll(extra.len() as u64) as usize]),
            _ => out.push(c),
        }
    }
    out
}

#[test]
fn the_count_is_the_nesting_of_the_parsed_value() {
    let mut dice = Dice(20240611, 0);
    let mut parsed = 0;
    let mut nested = 0;
    let mut exact = 0;
    for round in 0..12000 {
        let clean = document(&mut dice, true);
        let text = if round % 3 == 0 { spoil(&mut dice, &clean) } else { clean };
        let limit = least_limit(&text);
        assert!(nesting_is_within(&text, limit + 1));
        if limit > 0 {
            assert!(!nesting_is_within(&text, limit - 1));
        }
        if let Ok(value) = text.parse::<toml::Value>() {
            parsed += 1;
            let deep = depth(&value);
            if deep > 2 {
                nested += 1;
            }
            assert!(deep <= limit + 1, "depth {} with count {} in {:?}", deep, limit, text);
            assert!(limit + 1 <= 2 * deep, "depth {} with count {} in {:?}", deep, limit, text);
            if !text.contains("[[") {
                exact += 1;
                assert_eq!(deep, limit + 1, "in {:?}", text);
            }
        }
    }
    assert!(parsed > 1000, "only {} texts were parsed", parsed);
    assert!(nested > 300, "only {} parsed texts were nested", nested);
    assert!(exact > 300, "only {} parsed texts had no double bracket", exact);
}

#[test]
fn without_table_headers_the_count_is_the_nesting_below_the_root() {
    let mut dice = Dice(977, 0);
    let mut parsed = 0;
    for round in 0..30000 {
        let clean = document(&mut dice, false);
        let text = if round % 3 == 0 { spoil(&mut dice, &clean) } else { clean };
        if text.contains("[[") {
            continue;
        }
        let limit = least_limit(&text);
        if let Ok(value) = text.parse::<toml::Value>() {
            parsed += 1;
            assert_eq!(depth(&value), limit + 1, "in {:?}", text);
        }
    }
    assert!(parsed > 1000, "only {} texts were parsed", parsed);
}

#[test]
fn an_array_of_depth_n_counts_n() {
    for levels in 0..20 {
        let text = format!("a = {}1{}", "[".repeat(levels), "]".repeat(levels));
        assert_eq!(least_limit(&text), levels);
        let value = text.parse::<toml::Value>().unwrap();
        assert_eq!(depth(&value), levels + 1);
    }
}

#[test]
fn a_key_of_n_parts_counts_n_less_one() {
    for parts in 1..20 {
        let key = vec!["k"; parts].join(".");
        let text = format!("{} = 1", key);
        assert_eq!(least_limit(&text), parts - 1);
        assert_eq!(depth(&text.parse::<toml::Value>().unwrap()), parts);
        let text = format!("[{}]\nx = 1", key);
        assert_eq!(least_limit(&text), parts);
        assert_eq!(depth(&text.parse::<toml::Value>().unwrap()), parts + 1);
        let text = format!("[{}]\nx.y = [1]", key);
        assert_eq!(least_limit(&text), parts + 2);
        assert_eq!(depth(&text.parse::<toml::Value>().unwrap()), parts + 3);
    }
}

#[test]
fn a_header_in_double_brackets_counts_its_array_and_its_table() {
    let text = "[[a]]\nx = 1\n[[a]]\nx = 2\n";
    assert_eq!(least_limit(text), 2);
    assert_eq!(depth(&text.parse::<toml::Value>().unwrap()), 3);
    let text = "[[a]]\n[[a.b]]\n[[a.b.c]]\nx = [1]\n";
    assert_eq!(least_limit(text), 7);
    assert_eq!(depth(&text.parse::<toml::Value>().unwrap()), 8);
    let text = "[[a]]\n[b.c]\nx = 1\n";
    assert_eq!(least_limit(text), 3);
    assert_eq!(depth(&text.parse::<toml::Value>().unwrap()), 3);
}
