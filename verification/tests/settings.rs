use nearsend::settings::{
    add_subnet_row, address_example_text, address_placeholder, check_discovery_timeout,
    check_multicast_group, check_pin, check_server_alias, check_server_port,
    destination_not_picked_notice, initial_subnet_rows, network_filters_text,
    parse_network_filters, remove_subnet_row, save_subnet_rows, send_pin_prompt_title,
    submit_address, AddressInputMode, AddressSubmit,
};

fn strings(v: &[&str]) -> Vec<String> {
    v.iter().map(|s| s.to_string()).collect()
}

#[test]
fn text_fields() {
    assert_eq!(check_server_alias("  Pad "), Ok("Pad".to_string()));
    assert_eq!(check_server_alias(" "), Err("别名不能为空".to_string()));
    assert_eq!(check_pin(""), Err("PIN 不能为空".to_string()));
    assert_eq!(check_pin(" 12 "), Ok("12".to_string()));
    assert_eq!(check_multicast_group(""), Err("组播地址不能为空".to_string()));
    assert_eq!(send_pin_prompt_title(true), "PIN 错误，请重试");
    assert_eq!(send_pin_prompt_title(false), "请输入接收端 PIN");
    assert_eq!(destination_not_picked_notice(), "未选择接收目录，保持当前配置。");
}

#[test]
fn number_fields() {
    assert_eq!(check_server_port(" 53317 "), Ok(53317));
    assert_eq!(check_server_port("+80"), Ok(80));
    let bad = Err("端口必须是 1-65535 的数字".to_string());
    assert_eq!(check_server_port("0"), bad);
    assert_eq!(check_server_port("65536"), bad);
    assert_eq!(check_server_port("8o"), bad);
    assert_eq!(check_discovery_timeout("50"), Ok(200));
    assert_eq!(check_discovery_timeout("5000"), Ok(5000));
    assert_eq!(check_discovery_timeout("-1"), Err("请输入有效数字".to_string()));
    assert_eq!(check_discovery_timeout("4294967296"), Err("请输入有效数字".to_string()));
}

#[test]
fn filter_rules_are_one_per_line() {
    let rules = parse_network_filters(" 192.168.1.*\r\n\n  \n10.0.0.1 ");
    assert_eq!(rules, strings(&["192.168.1.*", "10.0.0.1"]));
    assert_eq!(network_filters_text(&rules), "192.168.1.*\n10.0.0.1");
    assert_eq!(network_filters_text(&vec![]), "");
    assert_eq!(parse_network_filters(&network_filters_text(&rules)), rules);
}

#[test]
fn subnet_rows() {
    let mut rows = initial_subnet_rows(vec![]);
    assert_eq!(rows, strings(&[""]));
    rows = initial_subnet_rows(strings(&["a", "b"]));
    assert_eq!(add_subnet_row(&mut rows, 0), Ok(()));
    assert_eq!(rows, strings(&["a", "", "b"]));
    remove_subnet_row(&mut rows, 2);
    assert_eq!(rows, strings(&["a", ""]));
    remove_subnet_row(&mut rows, 0);
    remove_subnet_row(&mut rows, 0);
    assert_eq!(rows, strings(&[""]));
    let mut full: Vec<String> = (0..32).map(|i| i.to_string()).collect();
    assert_eq!(
        add_subnet_row(&mut full, 3),
        Err("最多支持 32 条发现目标规则。".to_string())
    );
    assert_eq!(full.len(), 32);
}

#[test]
fn saving_subnet_rows() {
    let rows = strings(&[" 192.168.2.* ", "", "192.168.2.*", "10.0.0.0/24"]);
    assert_eq!(
        save_subnet_rows(&rows, &vec![true, true, true, true]),
        Ok(strings(&["192.168.2.*", "10.0.0.0/24"]))
    );
    let rows = strings(&["a", "ok", "b", "c", "d"]);
    assert_eq!(
        save_subnet_rows(&rows, &vec![false, true, false, false, false]),
        Err("存在无效网段规则：a, b, c。仅支持 /24~/32、192.168.2.*、192.168.2 或单个 IP。".to_string())
    );
}

#[test]
fn address_dialog() {
    assert_eq!(address_placeholder(AddressInputMode::Label), "#123");
    assert_eq!(address_placeholder(AddressInputMode::IpAddress), "输入IP地址");
    assert_eq!(
        address_example_text(AddressInputMode::Label, &vec![]),
        "示例：123\n可用网段：\n- 192.168.1."
    );
    assert_eq!(
        address_example_text(AddressInputMode::IpAddress, &vec![]),
        "示例：\n- 192.168.1.23\n- 192.168.1.123"
    );
    let p = strings(&["10.0.0", "192.168.1", "172.16.0", "172.17.0"]);
    assert_eq!(
        address_example_text(AddressInputMode::Label, &p),
        "示例：123\n可用网段：\n- 10.0.0.\n- 192.168.1.\n- 172.16.0."
    );
    assert_eq!(
        address_example_text(AddressInputMode::IpAddress, &p[..1].to_vec()),
        "示例：\n- 10.0.0.123"
    );
    assert!(matches!(submit_address(AddressInputMode::IpAddress, "  ", &p), AddressSubmit::KeepOpen));
    match submit_address(AddressInputMode::IpAddress, " 10.0.0.7 ", &p) {
        AddressSubmit::SendTo(ip) => assert_eq!(ip, "10.0.0.7"),
        _ => panic!("send expected"),
    }
    match submit_address(AddressInputMode::Label, "#7", &p) {
        AddressSubmit::SendTo(ip) => assert_eq!(ip, "10.0.0.7"),
        _ => panic!("send expected"),
    }
    match submit_address(AddressInputMode::Label, "#300", &p) {
        AddressSubmit::Notice(m) => {
            assert_eq!(m, "无法根据标签推导可用 IP，请切换到“IP 地址”模式直接输入。")
        }
        _ => panic!("notice expected"),
    }
}
