use nucleo::processo::{extensoes, ordem_de_busca, tem_barra};

fn v(xs: &[&str]) -> Vec<String> {
    xs.iter().map(|s| s.to_string()).collect()
}

#[test]
fn o_pathext_vira_a_lista_de_extensoes() {
    assert!(extensoes(Some(".EXE".into()), false).is_empty(), "fora do Windows o bit decide");
    assert_eq!(extensoes(None, true), v(&[".COM", ".EXE", ".BAT", ".CMD"]));
    assert_eq!(extensoes(Some(" .EXE ;;CMD; ".into()), true), v(&[".EXE", ".CMD"]));
}

#[test]
fn no_windows_a_cli_do_npm_e_um_cmd_e_a_busca_acha() {
    let ordem = ordem_de_busca("agente", &v(&["/pasta"]), &v(&[".exe", ".cmd"]));
    assert_eq!(ordem, v(&["/pasta/agente.exe", "/pasta/agente.cmd", "/pasta/agente"]));
    assert_eq!(ordem_de_busca("agente", &v(&["/pasta"]), &vec![]), v(&["/pasta/agente"]));
}

#[test]
fn a_pasta_manda_mais_que_a_extensao() {
    let ordem = ordem_de_busca("agente", &v(&["/um/", "/dois"]), &v(&[".exe", ".cmd"]));
    assert_eq!(
        ordem,
        v(&["/um/agente.exe", "/um/agente.cmd", "/um/agente", "/dois/agente.exe", "/dois/agente.cmd", "/dois/agente"])
    );
}

#[test]
fn caminho_inteiro_nao_passa_pelo_path() {
    assert!(tem_barra("/opt/agente"));
    assert!(tem_barra("C:\\npm\\agente"));
    assert!(!tem_barra("agente"));
    let ordem = ordem_de_busca("/opt/agente", &v(&["/pasta"]), &v(&[".cmd"]));
    assert_eq!(ordem, v(&["/opt/agente.cmd", "/opt/agente"]));
}

#[test]
fn o_exe_ganha_do_cmd_porque_e_a_ordem_do_pathext() {
    // Quem tem a instalação nativa e o atalho do npm fica com a nativa: o
    // `.exe` é tentado antes do `.cmd` na mesma pasta.
    let ordem = ordem_de_busca("agente", &v(&["/pasta"]), &v(&[".exe", ".cmd"]));
    let exe = ordem.iter().position(|c| c == "/pasta/agente.exe").unwrap();
    let cmd = ordem.iter().position(|c| c == "/pasta/agente.cmd").unwrap();
    assert!(exe < cmd);
}
