use gateway_probe::hostname::{
    directory_name, directory_result, name_on_line, netbios_name, netbios_result,
};
use gateway_probe::outcome::Outcome;

fn name_chars(s: &str) -> Vec<char> {
    s.chars().collect()
}

fn lookup_written(success: bool, output: &str) -> Outcome {
    Outcome::Exited { success, output: output.to_string() }
}

const NAME_QUERY: &str = "Looking up status of 192.168.1.1\n\
    \tROUTER          <00> -         B <ACTIVE> \n\
    \tROUTER          <03> -         B <ACTIVE> \n\
    \tROUTER          <20> -         B <ACTIVE> \n\
    \tWORKGROUP       <00> - <GROUP> B <ACTIVE> \n\
    \n\
    \tMAC Address = 00-00-00-00-00-00\n";

#[test]
fn directory_name_is_the_second_field_of_the_first_line() {
    assert_eq!(directory_name("192.168.1.1     router.local\n"), Some("router.local".to_string()));
    assert_eq!(directory_name("192.168.1.1 router.local"), Some("router.local".to_string()));
    assert_eq!(
        directory_name("192.168.1.1 router.local gateway gw\n"),
        Some("router.local".to_string())
    );
    assert_eq!(
        directory_name("192.168.1.1\trouter.local\r\n192.168.1.1 other\n"),
        Some("router.local".to_string())
    );
}

#[test]
fn directory_name_absent_with_fewer_than_two_fields() {
    assert_eq!(directory_name(""), None);
    assert_eq!(directory_name("\n"), None);
    assert_eq!(directory_name("192.168.1.1\n"), None);
    assert_eq!(directory_name("   \t  \n"), None);
}

#[test]
fn directory_name_reads_the_first_line_only() {
    assert_eq!(directory_name("192.168.1.1\nrouter.local\n"), None);
    assert_eq!(directory_name("\n192.168.1.1 router.local\n"), None);
}

#[test]
fn netbios_name_is_the_first_field_of_the_host_record() {
    assert_eq!(netbios_name(NAME_QUERY), Some("ROUTER".to_string()));
    assert_eq!(netbios_name("ROUTER <00> - B <ACTIVE>"), Some("ROUTER".to_string()));
    assert_eq!(netbios_name("<00>"), Some("<00>".to_string()));
}

#[test]
fn netbios_name_passes_over_group_records() {
    let query = "\tWORKGROUP       <00> - <GROUP> B <ACTIVE> \n\
                 \tROUTER          <00> -         B <ACTIVE> \n";
    assert_eq!(netbios_name(query), Some("ROUTER".to_string()));
    assert_eq!(netbios_name("\tWORKGROUP       <00> - <GROUP> B <ACTIVE> \n"), None);
    assert_eq!(netbios_name("\tGROUPIE         <00> -         B <ACTIVE> \n"), None);
}

#[test]
fn netbios_name_absent_without_a_host_record() {
    assert_eq!(netbios_name(""), None);
    assert_eq!(netbios_name("Looking up status of 192.168.1.1\nNo reply from 192.168.1.1\n"), None);
    assert_eq!(netbios_name("\tROUTER          <20> -         B <ACTIVE> \n"), None);
    assert_eq!(netbios_name("\tROUTER          <0 0> -        B <ACTIVE> \n"), None);
    assert_eq!(netbios_name("\tROUTER          <00\n> -        B <ACTIVE> \n"), None);
}

#[test]
fn netbios_name_of_the_first_host_record() {
    let query = "\tFIRST           <00> -         B <ACTIVE> \n\
                 \tSECOND          <00> -         B <ACTIVE> \n";
    assert_eq!(netbios_name(query), Some("FIRST".to_string()));
}

#[test]
fn name_on_one_line() {
    assert_eq!(
        name_on_line(&name_chars("\tROUTER          <00> -         B <ACTIVE> ")),
        Some("ROUTER".to_string())
    );
    assert_eq!(name_on_line(&name_chars("   <00>ROUTER x")), Some("<00>ROUTER".to_string()));
    assert_eq!(name_on_line(&name_chars("\tWORKGROUP <00> - <GROUP> B <ACTIVE>")), None);
    assert_eq!(name_on_line(&name_chars("\tROUTER <03> - B <ACTIVE>")), None);
    assert_eq!(name_on_line(&name_chars("")), None);
}

#[test]
fn directory_result_needs_a_successful_exit() {
    assert_eq!(
        directory_result(&lookup_written(true, "192.168.1.1 router.local\n")),
        Some("router.local".to_string())
    );
    assert_eq!(directory_result(&lookup_written(false, "192.168.1.1 router.local\n")), None);
    assert_eq!(directory_result(&lookup_written(true, "")), None);
    assert_eq!(directory_result(&lookup_written(true, "192.168.1.1\n")), None);
    assert_eq!(directory_result(&Outcome::Unavailable), None);
    assert_eq!(
        directory_result(&Outcome::Responded {
            status: 200,
            body: Some("192.168.1.1 router.local\n".to_string())
        }),
        None
    );
}

#[test]
fn netbios_result_reads_what_the_command_wrote() {
    assert_eq!(netbios_result(&lookup_written(true, NAME_QUERY)), Some("ROUTER".to_string()));
    assert_eq!(netbios_result(&lookup_written(false, NAME_QUERY)), Some("ROUTER".to_string()));
    assert_eq!(netbios_result(&lookup_written(true, "No reply from 192.168.1.1\n")), None);
    assert_eq!(netbios_result(&Outcome::Unavailable), None);
    assert_eq!(
        netbios_result(&Outcome::Responded { status: 200, body: Some(NAME_QUERY.to_string()) }),
        None
    );
}
