use nucleo::barramento::{
    aceita_regra, avaliar_pedido, descrever_ferramenta, e_de_fora, ler_pedido, matcher_do_hook, pede_licenca,
    previa_do_conteudo, primeiro_passo, tamanho, veredito_da_decisao, Aprovacoes, Barramento,
    Passo, PedidoDoHook, Veredito, FERRAMENTAS_QUE_PEDEM_LICENCA,
};
use nucleo::erro::Erro;
use nucleo::ferramentas::{self, nome_completo};
use nucleo::modelo::{Decisao, ServidorMcp};

fn j(s: &str) -> serde_json::Value {
    serde_json::from_str(s).unwrap()
}

#[test]
fn as_ferramentas_que_gravam_pedem_card_com_o_nome_completo() {
    for f in ferramentas::FERRAMENTAS_QUE_GRAVAM {
        let completo = nome_completo(f);
        assert!(pede_licenca(&completo), "{completo} escapou do card");
        assert!(matcher_do_hook(&[]).contains(&completo));
        assert!(aceita_regra(&completo));
    }
    for f in ["enviar_para", "listar_nos", "ler_nota", "concluir"] {
        assert!(!pede_licenca(&nome_completo(f)), "{f}");
    }
}

#[test]
fn ferramenta_de_servidor_externo_sempre_pede_card() {
    let crm = ServidorMcp {
        nome: "crm".into(),
        url: "https://exemplo.invalido/mcp".into(),
        cabecalhos: vec![("Authorization".into(), "Bearer segredo".into())],
    };
    let matcher = matcher_do_hook(std::slice::from_ref(&crm));
    assert!(matcher.contains("mcp__crm__.*"), "{matcher}");
    assert!(e_de_fora("mcp__crm__buscar_cliente", std::slice::from_ref(&crm)));
    assert!(!e_de_fora("mcp__mutirao__ler_nota", std::slice::from_ref(&crm)));
    assert!(!aceita_regra("mcp__crm__buscar_cliente"));
}

#[test]
fn o_veredito_sai_no_formato_que_a_cli_espera() {
    let v = Veredito { permitir: false, motivo: "não".into() };
    let j = v.como_json();
    assert_eq!(j["hookSpecificOutput"]["hookEventName"], "PreToolUse");
    assert_eq!(j["hookSpecificOutput"]["permissionDecision"], "deny");
    assert_eq!(j["hookSpecificOutput"]["permissionDecisionReason"], "não");
    let sim = Veredito { permitir: true, motivo: "ok".into() };
    assert_eq!(sim.como_json()["hookSpecificOutput"]["permissionDecision"], "allow");
}

#[test]
fn o_card_descreve_a_acao_em_portugues_de_gente() {
    let (r, d) =
        descrever_ferramenta("Write", &j(r#"{"file_path": "/a/b/orçamento.xlsx", "content": "x\ny"}"#));
    assert_eq!(r, "Gravar orçamento.xlsx");
    assert!(d.starts_with("2 linhas"), "detalhe: {d}");

    let (r, d) = descrever_ferramenta("Bash", &j(r#"{"command": "rm -rf /"}"#));
    assert_eq!(r, "Rodar um comando");
    assert_eq!(d, "rm -rf /", "o comando inteiro precisa aparecer antes do clique");

    let (r, _) = descrever_ferramenta("FerramentaQueNaoExiste", &j("{}"));
    assert_eq!(r, "Usar FerramentaQueNaoExiste");
}

#[test]
fn os_nomes_mcp_do_card_batem_com_o_catalogo() {
    let (r, d) = descrever_ferramenta(
        &nome_completo("escrever_nota"),
        &j(r#"{ "nota": "Briefing", "conteudo": "uma\nduas" }"#),
    );
    assert_eq!(r, "Escrever na nota Briefing");
    assert!(d.contains("2 linhas"), "{d}");

    let (r, _) = descrever_ferramenta(
        &nome_completo("escrever_arquivo"),
        &j(r#"{ "caminho": "sub/minuta.md", "conteudo": "x" }"#),
    );
    assert_eq!(r, "Gravar minuta.md");

    let mut pedido = serde_json::Map::new();
    pedido.insert("tool_name".into(), serde_json::Value::String(nome_completo("escrever_nota")));
    pedido.insert(
        "tool_input".into(),
        j(r#"{ "nota": "Briefing", "conteudo": "o texto que vai para o disco" }"#),
    );
    pedido.insert("tool_use_id".into(), serde_json::Value::String("toolu_1".into()));
    let p = PedidoDoHook::do_json(&serde_json::Value::Object(pedido)).unwrap();
    assert_eq!(p.argumentos["conteudo"], "o texto que vai para o disco");
}

#[test]
fn ler_nao_pede_licenca() {
    match primeiro_passo("Read", &[], false) {
        Passo::Liberar(v) => {
            assert!(v.permitir);
            assert_eq!(v.motivo, "Leitura não precisa de aprovação.");
        }
        _ => panic!("ler pediu card"),
    }
}

#[test]
fn gravar_pede_card_e_a_regra_dispensa() {
    assert!(matches!(primeiro_passo("Write", &[], false), Passo::PedirCard));
    match primeiro_passo("Write", &[], true) {
        Passo::PelaRegra(v) => {
            assert!(v.permitir);
            assert_eq!(v.motivo, "Você já tinha liberado isto nesta pasta.");
        }
        _ => panic!("a regra não valeu"),
    }
}

#[test]
fn rodar_comando_nunca_vira_permissao_permanente() {
    assert!(!aceita_regra("Bash"));
    assert!(aceita_regra("Write"));
    // Nem mesmo com uma regra no banco o comando passa sem card.
    assert!(matches!(primeiro_passo("Bash", &[], true), Passo::PedirCard));
}

#[test]
fn negar_explica_ao_agente_para_ele_nao_insistir() {
    let v = veredito_da_decisao(Decisao::Negada);
    assert!(!v.permitir);
    assert!(!v.motivo.is_empty());
    assert!(veredito_da_decisao(Decisao::Aprovada).permitir);
}

#[test]
fn pedido_sem_token_ou_sem_json_e_recusado() {
    match ler_pedido("   ", "{}") {
        Err(Erro::Invalido(m)) => assert_eq!(m, "sem token"),
        outro => panic!("veio {outro:?}"),
    }
    match ler_pedido("t", "isto não é json") {
        Err(Erro::Invalido(m)) => assert_eq!(m, "corpo não é json"),
        outro => panic!("veio {outro:?}"),
    }
    match ler_pedido("t", r#"{"tool_input": {}}"#) {
        Err(Erro::Invalido(m)) => assert_eq!(m, "pedido sem tool_name"),
        outro => panic!("veio {outro:?}"),
    }
    let p = ler_pedido("t", r#"{"tool_name": "Write", "tool_input": {"content": "x"}, "tool_use_id": "u"}"#)
        .unwrap();
    assert_eq!(p.ferramenta, "Write");
}

#[test]
fn o_tamanho_no_card_segue_o_formato_de_uma_casa() {
    let t = |b: usize| tamanho(b).into_iter().collect::<String>();
    assert_eq!(t(0), "0 B");
    assert_eq!(t(1023), "1023 B");
    for b in [1024usize, 1536, 2048, 10_000, 1_048_576, 1075, 1126, 12_345_678] {
        assert_eq!(t(b), format!("{:.1} kB", b as f64 / 1024.0), "bytes {b}");
    }
}

#[test]
fn a_previa_e_encolhida_para_caber_no_card() {
    let curta = previa_do_conteudo(&j(r#"{"content": "abc"}"#));
    assert_eq!(curta.as_deref(), Some("abc"));
    let longo: String = "y".repeat(700);
    let mut m = serde_json::Map::new();
    m.insert("new_string".into(), serde_json::Value::String(longo));
    let p = previa_do_conteudo(&serde_json::Value::Object(m)).unwrap();
    assert_eq!(p.chars().count(), 600 + 2);
    assert!(p.ends_with("\n…"));
    assert_eq!(previa_do_conteudo(&j(r#"{"outra": 1}"#)), None);
}

#[test]
fn decidir_duas_vezes_o_mesmo_card_nao_passa() {
    let mut a = Aprovacoes::nova();
    let espera = a.registrar("c1");
    assert_eq!(a.quantas_esperando(), 1);
    assert!(a.responder("c1", Decisao::Aprovada));
    assert_eq!(espera.recv().unwrap(), Decisao::Aprovada);
    assert!(!a.responder("c1", Decisao::Negada), "o segundo clique chegou a alguém");
    assert_eq!(a.quantas_esperando(), 0);
}

#[test]
fn card_esquecido_nao_deixa_canal_orfao() {
    let mut a = Aprovacoes::nova();
    let _espera = a.registrar("c1");
    a.esquecer("c1");
    assert_eq!(a.quantas_esperando(), 0, "não pode sobrar canal órfão");
}

#[test]
fn o_barramento_atende_so_no_localhost() {
    let b = Barramento::na_porta(7777, Aprovacoes::nova());
    assert_eq!(b.porta(), 7777);
    assert_eq!(b.url_base(), "http://127.0.0.1:7777");
    assert_eq!(b.url_de_aprovacao(), "http://127.0.0.1:7777/aprovacao");
}

#[test]
fn o_barramento_guarda_as_esperas_que_atende() {
    let mut b = Barramento::na_porta(7777, Aprovacoes::nova());
    let _espera = b.aprovacoes_mut().registrar("c1");
    assert_eq!(b.aprovacoes().quantas_esperando(), 1);
    assert!(b.aprovacoes_mut().responder("c1", Decisao::Aprovada));
    assert_eq!(b.aprovacoes().quantas_esperando(), 0);
    assert_eq!(b.porta(), 7777);
}

#[test]
fn o_matcher_nomeia_tudo_que_pede_licenca() {
    let m = matcher_do_hook(&[]);
    for f in FERRAMENTAS_QUE_PEDEM_LICENCA {
        assert!(m.split('|').any(|p| p == f), "{f} fora do matcher: {m}");
    }
}

#[test]
fn token_invalido_nao_conta_nada_a_quem_perguntou() {
    assert!(matches!(ler_pedido("", r#"{ "tool_name": "Write" }"#), Err(Erro::Invalido(_))));
    assert!(matches!(ler_pedido("t", "não é json"), Err(Erro::Invalido(_))));
    assert!(matches!(ler_pedido("t", r#"{ "tool_input": {} }"#), Err(Erro::Invalido(_))));
    let pedido = ler_pedido("token-que-nao-existe", r#"{ "tool_name": "Write", "tool_use_id": "u1" }"#).unwrap();
    match avaliar_pedido(&pedido, None, &vec![]) {
        Err(Erro::NaoEncontrado { id, .. }) => assert_eq!(id, "token"),
        outro => panic!("veio {outro:?}"),
    }
}

#[test]
fn nao_perguntar_de_novo_dispensa_o_card_na_proxima() {
    let pedido = ler_pedido("t", r#"{ "tool_name": "Write", "tool_use_id": "u1" }"#).unwrap();
    let (id, passo) = avaliar_pedido(&pedido, Some(("s1".to_string(), vec![])), &vec![]).unwrap();
    assert_eq!(id, "s1:u1");
    assert!(matches!(passo, Passo::PedirCard));
    let (_, passo) = avaliar_pedido(&pedido, Some(("s1".to_string(), vec![])), &vec!["Write".to_string()]).unwrap();
    match passo {
        Passo::PelaRegra(v) => assert!(v.permitir),
        outro => panic!("veio {outro:?}"),
    }
}
