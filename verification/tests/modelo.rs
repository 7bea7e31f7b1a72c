use nucleo::modelo::EstadoSessao::{
    AguardandoAprovacao, AguardandoHumano, AguardandoNo, Erro, Ocioso, Pensando,
};
use nucleo::modelo::{
    Adaptador, Aprovacao, Autonomia, EstadoEnsaio, EstadoSessao, PapelMensagem, TipoCabo,
    TipoMudanca, TipoNo, Trace, MAX_SALTOS,
};

#[test]
fn transicoes_legitimas_do_turno() {
    assert!(Ocioso.pode_ir_para(Pensando));
    assert!(Pensando.pode_ir_para(AguardandoAprovacao));
    assert!(AguardandoAprovacao.pode_ir_para(Pensando));
    assert!(AguardandoNo.pode_ir_para(Erro)); // prazo estourou
    assert!(Erro.pode_ir_para(Ocioso));
}

#[test]
fn transicoes_ilegitimas_do_turno() {
    assert!(!Ocioso.pode_ir_para(AguardandoAprovacao), "aprovação sem turno não existe");
    assert!(!Ocioso.pode_ir_para(Erro));
    assert!(!AguardandoHumano.pode_ir_para(AguardandoAprovacao));
}

#[test]
fn estados_que_pedem_atencao() {
    assert!(AguardandoAprovacao.pede_atencao());
    assert!(AguardandoHumano.pede_atencao());
    assert!(Erro.pede_atencao());
    assert!(!Pensando.pede_atencao(), "pensando não é pedido de socorro");
    assert!(!Ocioso.pede_atencao());
}

#[test]
fn a_cadeia_para_no_limite_de_saltos() {
    let mut t = Trace::novo();
    for _ in 0..MAX_SALTOS {
        t = t.saltar().expect("dentro do limite");
    }
    assert_eq!(t.saltos, MAX_SALTOS);
    assert!(t.saltar().is_none(), "passou de {MAX_SALTOS} saltos");
    assert_eq!(t.id, Trace::novo().saltar().map(|_| t.id.clone()).unwrap());
    assert_ne!(Trace::novo().id, Trace::novo().id, "cada pedido abre a sua cadeia");
}

#[test]
fn a_cadeia_guarda_o_id_em_cada_salto() {
    let t = Trace::novo();
    assert!(t.id.starts_with("tr_"));
    assert_eq!(t.id.chars().count(), 11);
    let depois = t.saltar().unwrap();
    assert_eq!(depois.id, t.id);
    assert_eq!(depois.saltos, 1);
}

#[test]
fn so_quem_esta_parado_aceita_turno() {
    for e in [Ocioso, Erro] {
        assert!(e.aceita_turno());
    }
    for e in [Pensando, AguardandoAprovacao, AguardandoHumano, AguardandoNo] {
        assert!(!e.aceita_turno());
    }
}

#[test]
fn os_textos_dos_enums_vao_e_voltam() {
    for t in [TipoNo::Agente, TipoNo::Nota, TipoNo::Arquivos, TipoNo::Portal, TipoNo::Forma] {
        assert_eq!(TipoNo::do_texto(t.como_texto()), Some(t));
    }
    for t in [TipoCabo::FalaCom, TipoCabo::LeNota, TipoCabo::EscreveNota] {
        assert_eq!(TipoCabo::do_texto(t.como_texto()), Some(t));
    }
    assert_eq!(TipoCabo::FalaCom.como_texto(), "fala_com");
    for e in [
        EstadoSessao::Ocioso,
        EstadoSessao::Pensando,
        EstadoSessao::AguardandoAprovacao,
        EstadoSessao::AguardandoHumano,
        EstadoSessao::AguardandoNo,
        EstadoSessao::Erro,
    ] {
        assert_eq!(EstadoSessao::do_texto(e.como_texto()), Some(e));
    }
    assert_eq!(EstadoSessao::AguardandoAprovacao.como_texto(), "aguardando_aprovacao");
    for a in [Adaptador::Claude, Adaptador::Codex, Adaptador::Pty, Adaptador::Falso] {
        assert_eq!(Adaptador::do_texto(a.como_texto()), Some(a));
    }
    assert_eq!(Adaptador::do_texto("cli"), Some(Adaptador::Claude));
    for p in [PapelMensagem::Usuario, PapelMensagem::Agente, PapelMensagem::Sistema, PapelMensagem::No] {
        assert_eq!(PapelMensagem::do_texto(p.como_texto()), Some(p));
    }
    for a in [Aprovacao::Automatica, Aprovacao::Pendente, Aprovacao::Aprovada, Aprovacao::Negada] {
        assert_eq!(Aprovacao::do_texto(a.como_texto()), Some(a));
    }
    for a in [Autonomia::Cauteloso, Autonomia::Padrao, Autonomia::Solto] {
        assert_eq!(Autonomia::do_texto(a.como_texto()), Some(a));
    }
    for e in [EstadoEnsaio::Aberto, EstadoEnsaio::Publicado, EstadoEnsaio::Descartado] {
        assert_eq!(EstadoEnsaio::do_texto(e.como_texto()), Some(e));
    }
    assert_eq!(TipoNo::do_texto("inventado"), None);
}

#[test]
fn a_letra_do_git_vira_palavra_de_gente() {
    assert_eq!(TipoMudanca::da_letra("A"), TipoMudanca::Criado);
    assert_eq!(TipoMudanca::da_letra("D"), TipoMudanca::Apagado);
    assert_eq!(TipoMudanca::da_letra("R100"), TipoMudanca::Renomeado);
    assert_eq!(TipoMudanca::da_letra("M"), TipoMudanca::Alterado);
    assert_eq!(TipoMudanca::da_letra("?"), TipoMudanca::Alterado);
    assert_eq!(TipoMudanca::da_letra(""), TipoMudanca::Alterado);
    assert_eq!(TipoMudanca::Renomeado.como_texto(), "renomeado");
}
