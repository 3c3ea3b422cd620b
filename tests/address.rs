use rbot_deploy::address::{make_ssh_addresses, resolve, to_decimal};

#[test]
fn decimal_renders_digits() {
    assert_eq!(to_decimal(0), "0");
    assert_eq!(to_decimal(7), "7");
    assert_eq!(to_decimal(10), "10");
    assert_eq!(to_decimal(4413), "4413");
    assert_eq!(to_decimal(usize::MAX), usize::MAX.to_string());
}

#[test]
fn team_addresses_in_order() {
    assert_eq!(
        make_ssh_addresses(4413),
        vec!["roborio-4413-FRC.local", "10.44.13.2", "172.22.11.2"]
    );
}

#[test]
fn team_addresses_small_team() {
    assert_eq!(
        make_ssh_addresses(5),
        vec!["roborio-5-FRC.local", "10.0.5.2", "172.22.11.2"]
    );
}

#[test]
fn team_addresses_large_team() {
    assert_eq!(
        make_ssh_addresses(25599),
        vec!["roborio-25599-FRC.local", "10.255.99.2", "172.22.11.2"]
    );
}

#[test]
fn resolve_counts_over_a_range() {
    for t in 0..3000usize {
        let r = resolve(t, None);
        assert_eq!(r.len(), 3);
        assert_eq!(r[0], format!("roborio-{}-FRC.local", t));
        assert_eq!(r[1], format!("10.{}.{}.2", t / 100, t % 100));
        assert_eq!(r[2], "172.22.11.2");
        let f = resolve(t, Some("192.168.1.50".to_string()));
        assert_eq!(f, vec!["192.168.1.50"]);
    }
}

#[test]
fn team_candidates_never_collide() {
    let all: Vec<Vec<String>> = (0..2000usize).map(make_ssh_addresses).collect();
    for i in 0..all.len() {
        for j in (i + 1)..all.len() {
            assert_ne!(all[i][0], all[j][0]);
            assert_ne!(all[i][1], all[j][1]);
        }
    }
    // 1 and 100 would collide if the octets were not separated
    assert_ne!(make_ssh_addresses(101)[1], make_ssh_addresses(1010)[1]);
}

#[test]
fn resolve_with_fixed_address() {
    assert_eq!(resolve(4413, Some("10.0.0.9".to_string())), vec!["10.0.0.9"]);
    assert_eq!(resolve(4413, Some(String::new())), vec![""]);
}
