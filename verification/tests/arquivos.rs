use nucleo::arquivos::{
    arquivo_da_nota, arquivo_da_nota_do_no, barreira_do_escopo, caminho_do_item, oculto,
    ordenar_itens, recusa_por_tamanho, sai_do_escopo, ItemArquivo, TETO_LEITURA,
};
use nucleo::erro::Erro;

fn item(nome: &str, pasta: bool) -> ItemArquivo {
    ItemArquivo { caminho: nome.into(), nome: nome.into(), pasta, tamanho: 0 }
}

#[test]
fn caminho_que_sai_da_pasta_e_recusado() {
    for fuga in ["../fora.txt", "a/../../fora.txt", "/etc/passwd", "sub/../../fora.txt"] {
        assert!(sai_do_escopo(fuga), "deixou passar: {fuga}");
        assert_eq!(barreira_do_escopo(fuga), Err(Erro::ForaDoEscopo));
    }
    assert!(barreira_do_escopo("contratos/minuta.docx").is_ok());
    assert!(barreira_do_escopo("./nota.md").is_ok());
    assert!(!sai_do_escopo("..oculto/ok.txt"), "'..' só conta como segmento inteiro");
    assert!(sai_do_escopo("C:\\Windows"));
    assert!(sai_do_escopo("a\\..\\b"));
}

#[test]
fn nome_de_nota_vira_arquivo_que_o_windows_aceita() {
    assert_eq!(arquivo_da_nota("Briefing"), "Briefing.md");
    assert_eq!(arquivo_da_nota("Ata da reunião"), "Ata da reunião.md");
    assert_eq!(arquivo_da_nota("a/b:c*d?"), "a-b-c-d-.md");
    assert_eq!(arquivo_da_nota("   "), "nota.md");
    assert_eq!(arquivo_da_nota("../fuga"), "-fuga.md");
    assert_eq!(arquivo_da_nota(".oculto"), "oculto.md");
    assert!(!sai_do_escopo(&arquivo_da_nota("../fuga")));
}

#[test]
fn o_arquivo_da_nota_nao_muda_com_o_nome_do_no() {
    let config: serde_json::Value = serde_json::from_str(r#"{"arquivo": "Briefing.md"}"#).unwrap();
    assert_eq!(arquivo_da_nota_do_no(&config, "Briefing v2"), "Briefing.md");
    let vazio: serde_json::Value = serde_json::from_str(r#"{"arquivo": "  "}"#).unwrap();
    assert_eq!(arquivo_da_nota_do_no(&vazio, "Briefing v2"), "Briefing v2.md");
    let nada: serde_json::Value = serde_json::from_str("{}").unwrap();
    assert_eq!(arquivo_da_nota_do_no(&nada, "Ata"), "Ata.md");
}

#[test]
fn listar_esconde_o_que_comeca_com_ponto_e_poe_pasta_primeiro() {
    assert!(oculto(".mutirao"));
    assert!(!oculto("contrato.txt"));
    let ordenados = ordenar_itens(vec![
        item("zeta.txt", false),
        item("Beta", true),
        item("alfa.txt", false),
        item("Alfa", true),
        item("Ômega.txt", false),
    ]);
    let nomes: Vec<&str> = ordenados.iter().map(|i| i.nome.as_str()).collect();
    assert_eq!(nomes, vec!["Alfa", "Beta", "alfa.txt", "zeta.txt", "Ômega.txt"]);
}

#[test]
fn o_caminho_de_um_item_e_relativo_a_pasta_do_workspace() {
    assert_eq!(caminho_do_item("", "a.txt"), "a.txt");
    assert_eq!(caminho_do_item("  ", "a.txt"), "a.txt");
    assert_eq!(caminho_do_item("sub/", "a.txt"), "sub/a.txt");
    assert_eq!(caminho_do_item("sub//", "a.txt"), "sub/a.txt");
    assert_eq!(caminho_do_item("sub/x", "a.txt"), "sub/x/a.txt");
}

#[test]
fn arquivo_grande_demais_nao_abre() {
    assert!(recusa_por_tamanho(TETO_LEITURA).is_none());
    for tamanho in [TETO_LEITURA + 1, 40 * 1024 * 1024, 5_500_000, 3_198_156] {
        match recusa_por_tamanho(tamanho) {
            Some(Erro::Invalido(m)) => assert_eq!(
                m,
                format!("esse arquivo tem {:.1} MB — grande demais para abrir aqui", tamanho as f64 / 1_048_576.0)
            ),
            outro => panic!("veio {outro:?}"),
        }
    }
}

#[test]
fn empate_na_ordem_guarda_a_ordem_de_chegada() {
    let ordenados = ordenar_itens(vec![
        item("Relatorio.md", false),
        item("b", true),
        item("relatorio.md", false),
        item("RELATORIO.md", false),
        item("B", true),
    ]);
    let nomes: Vec<&str> = ordenados.iter().map(|i| i.nome.as_str()).collect();
    assert_eq!(nomes, vec!["b", "B", "Relatorio.md", "relatorio.md", "RELATORIO.md"]);
    assert!(ordenar_itens(vec![]).is_empty());
}
