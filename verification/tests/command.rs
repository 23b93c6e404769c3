use zerotier_service::command::{command_for, placeholder_status, CertCommand};

#[test]
fn subcommands_are_selected_by_name_and_arguments() {
    assert_eq!(command_for("list", false), CertCommand::List);
    assert_eq!(command_for("list", true), CertCommand::Help);
    assert_eq!(command_for("show", true), CertCommand::Show);
    assert_eq!(command_for("show", false), CertCommand::Help);
    assert_eq!(command_for("newsuid", false), CertCommand::NewSuid);
    assert_eq!(command_for("newsuid", true), CertCommand::NewSuid);
    assert_eq!(command_for("newcsr", true), CertCommand::NewCsr);
    assert_eq!(command_for("sign", true), CertCommand::Sign);
    assert_eq!(command_for("verify", true), CertCommand::Verify);
    assert_eq!(command_for("import", true), CertCommand::Import);
    assert_eq!(command_for("export", true), CertCommand::Export);
    assert_eq!(command_for("delete", true), CertCommand::Delete);
    assert_eq!(command_for("factoryreset", false), CertCommand::FactoryReset);
    assert_eq!(command_for("factoryreset", true), CertCommand::Help);
    assert_eq!(command_for("Show", true), CertCommand::Help);
    assert_eq!(command_for("", false), CertCommand::Help);
}

#[test]
fn placeholder_statuses() {
    assert_eq!(placeholder_status(CertCommand::List), 0);
    assert_eq!(placeholder_status(CertCommand::FactoryReset), 0);
    assert_eq!(placeholder_status(CertCommand::Help), 1);
}
